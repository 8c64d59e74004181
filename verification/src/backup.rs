//! What the operations on backups share: how a password is resolved, and
//! how backups and temporary files are named.

use vstd::prelude::*;
use crate::error::{fault, BackupError, ErrorKind, Fault};
use crate::listing::is_backup_name;
use crate::text::{
    append, chars_of, decimal, optional_text, padded, render_decimal, render_padded, string_of,
};
use crate::vault::{load_password, stored_password};

verus! {

/// A moment of local time, by the calendar and the clock.
#[derive(Clone, Copy, Debug, PartialEq, Eq, Structural)]
pub struct LocalTime {
    pub year: i32,
    pub month: u8,
    pub day: u8,
    pub hour: u8,
    pub minute: u8,
    pub second: u8,
}

/// `c` may stand in the name of a backup: a letter or a digit of ASCII, a
/// hyphen or an underscore.
pub open spec fn is_name_char(c: char) -> bool {
    ('a' <= c <= 'z') || ('A' <= c <= 'Z') || ('0' <= c <= '9') || c == '-' || c == '_'
}

/// `name` without the characters that may not stand in the name of a
/// backup.
pub open spec fn sanitized(name: Seq<char>) -> Seq<char>
    decreases name.len(),
{
    if name.len() == 0 {
        Seq::empty()
    } else if is_name_char(name.last()) {
        sanitized(name.drop_last()).push(name.last())
    } else {
        sanitized(name.drop_last())
    }
}

/// A year in at least four digits; a sign in front of a year before 0 or
/// after 9999.
pub open spec fn year_text(year: int) -> Seq<char> {
    if 0 <= year <= 9999 {
        padded(year as nat, 4)
    } else if year < 0 {
        seq!['-'] + padded((-year) as nat, 4)
    } else {
        seq!['+'] + padded(year as nat, 4)
    }
}

/// A moment as it stands in the name of a backup: the date with hyphens, an
/// underscore, the time of day without separators.
pub open spec fn stamp(t: LocalTime) -> Seq<char> {
    year_text(t.year as int) + seq!['-'] + padded(t.month as nat, 2) + seq!['-'] + padded(
        t.day as nat,
        2,
    ) + seq!['_'] + padded(t.hour as nat, 2) + padded(t.minute as nat, 2) + padded(
        t.second as nat,
        2,
    )
}

/// The name of the backup made of the given device at the given moment.
pub open spec fn backup_name(device_name: Seq<char>, t: LocalTime) -> Seq<char> {
    "backup_"@ + sanitized(device_name) + seq!['_'] + stamp(t) + ".zip"@
}

/// A whole number in decimal, a minus sign in front of a negative one.
pub open spec fn signed_decimal(n: int) -> Seq<char> {
    if n < 0 {
        seq!['-'] + decimal((-n) as nat)
    } else {
        decimal(n as nat)
    }
}

/// The name of the temporary file of a restore begun at the given second
/// since the Unix epoch.
pub open spec fn restore_temp_name(seconds: int) -> Seq<char> {
    "restore_temp_"@ + signed_decimal(seconds) + ".zip"@
}

/// The password of a cloud operation: the argument where it is given and
/// not empty; else the password of the vault; a fault of kind `Auth` where
/// the vault yields none.
pub open spec fn resolved_password(argument: Option<Seq<char>>, stored: Option<Seq<char>>) -> Result<
    Seq<char>,
    Fault,
> {
    if argument is Some && argument->Some_0.len() > 0 {
        Ok(argument->Some_0)
    } else {
        match stored_password(stored) {
            Ok(password) => Ok(password),
            Err(_) => Err(fault(ErrorKind::Auth, "Password required"@)),
        }
    }
}

/// Whether the vault has to be read: it has unless a password that is not
/// empty is given.
pub fn needs_vault(argument: &Option<String>) -> (needed: bool)
    ensures
        needed == !(argument is Some && argument->Some_0@.len() > 0),
{
    match argument {
        Some(password) => password.as_str().is_empty(),
        None => true,
    }
}

/// The password of a cloud operation. `stored` is what the vault file
/// holds, `None` where it is absent; it is consulted where `needs_vault`
/// says so, and not otherwise.
pub fn resolve_password(argument: Option<String>, stored: Option<&str>) -> (r: Result<
    String,
    BackupError,
>)
    ensures
        match resolved_password(
            optional_text(argument),
            match stored {
                Some(blob) => Some(blob@),
                None => None,
            },
        ) {
            Ok(password) => r matches Ok(p) && p@ == password,
            Err(f) => r matches Err(e) && e@ == f,
        },
{
    match argument {
        Some(password) => {
            if !password.as_str().is_empty() {
                return Ok(password);
            }
        },
        None => {},
    }
    match load_password(stored) {
        Ok(password) => Ok(password),
        Err(_) => Err(BackupError::new(ErrorKind::Auth, "Password required")),
    }
}

/// `name` without the characters that may not stand in the name of a
/// backup.
pub fn sanitize_device_name(name: &str) -> (out: Vec<char>)
    ensures
        out@ == sanitized(name@),
{
    let chars = chars_of(name);
    let mut out: Vec<char> = Vec::new();
    let mut i: usize = 0;
    assert(chars@.take(0) =~= Seq::<char>::empty());
    while i < chars.len()
        invariant
            i <= chars.len(),
            chars@ == name@,
            out@ == sanitized(chars@.take(i as int)),
        decreases chars.len() - i,
    {
        let c: char = chars[i];
        proof {
            assert(chars@.take(i + 1).drop_last() =~= chars@.take(i as int));
            assert(chars@.take(i + 1).last() == c);
        }
        if (c >= 'a' && c <= 'z') || (c >= 'A' && c <= 'Z') || (c >= '0' && c <= '9') || c == '-'
            || c == '_' {
            out.push(c);
        }
        i += 1;
    }
    proof {
        assert(chars@.take(chars@.len() as int) =~= chars@);
    }
    out
}

/// A year in at least four digits.
fn render_year(year: i32) -> (out: Vec<char>)
    ensures
        out@ == year_text(year as int),
{
    if year >= 0 && year <= 9999 {
        render_padded(year as u128, 4)
    } else if year < 0 {
        let mut out: Vec<char> = Vec::new();
        out.push('-');
        let magnitude: u128 = (-(year as i64)) as u128;
        let digits = render_padded(magnitude, 4);
        append(&mut out, &digits);
        assert(out@ =~= seq!['-'] + padded((-year) as nat, 4));
        out
    } else {
        let mut out: Vec<char> = Vec::new();
        out.push('+');
        let digits = render_padded(year as u128, 4);
        append(&mut out, &digits);
        assert(out@ =~= seq!['+'] + padded(year as nat, 4));
        out
    }
}

/// A moment as it stands in the name of a backup.
pub fn render_stamp(t: LocalTime) -> (out: Vec<char>)
    ensures
        out@ == stamp(t),
{
    let mut out = render_year(t.year);
    out.push('-');
    let month = render_padded(t.month as u128, 2);
    append(&mut out, &month);
    out.push('-');
    let day = render_padded(t.day as u128, 2);
    append(&mut out, &day);
    out.push('_');
    let hour = render_padded(t.hour as u128, 2);
    append(&mut out, &hour);
    let minute = render_padded(t.minute as u128, 2);
    append(&mut out, &minute);
    let second = render_padded(t.second as u128, 2);
    append(&mut out, &second);
    proof {
        let y = year_text(t.year as int);
        assert(out@ =~= stamp(t));
    }
    out
}

/// The name of the backup made of the given device at the given moment:
/// `backup_`, the sanitized name of the device, an underscore, the moment,
/// `.zip`.
pub fn backup_file_name(device_name: &str, t: LocalTime) -> (name: String)
    ensures
        name@ == backup_name(device_name@, t),
{
    let mut out = chars_of("backup_");
    let device = sanitize_device_name(device_name);
    append(&mut out, &device);
    out.push('_');
    let moment = render_stamp(t);
    append(&mut out, &moment);
    let suffix = chars_of(".zip");
    append(&mut out, &suffix);
    proof {
        assert(out@ =~= backup_name(device_name@, t));
    }
    string_of(&out)
}

/// The name of the temporary file of a restore begun at the given second
/// since the Unix epoch.
pub fn restore_temp_file_name(seconds: i64) -> (name: String)
    ensures
        name@ == restore_temp_name(seconds as int),
{
    let mut out = chars_of("restore_temp_");
    if seconds < 0 {
        out.push('-');
        let digits = render_decimal((-(seconds as i128)) as u128);
        append(&mut out, &digits);
    } else {
        let digits = render_decimal(seconds as u128);
        append(&mut out, &digits);
    }
    let suffix = chars_of(".zip");
    append(&mut out, &suffix);
    proof {
        assert(out@ =~= restore_temp_name(seconds as int));
    }
    string_of(&out)
}

/// Every name that is given to a backup is listed as one: it begins with
/// `backup_` and ends in `.zip`.
pub proof fn backup_names_are_listed(device_name: Seq<char>, t: LocalTime)
    ensures
        is_backup_name(backup_name(device_name, t)),
{
    reveal_strlit("backup_");
    reveal_strlit(".zip");
    let name = backup_name(device_name, t);
    assert(name.subrange(0, 7) =~= "backup_"@);
    assert(name.subrange(name.len() - 4, name.len() as int) =~= ".zip"@);
}

/// The name of a backup holds, between `backup_` and the moment, only
/// characters that may stand there.
pub proof fn sanitized_holds_name_chars(name: Seq<char>)
    ensures
        forall|i: int| 0 <= i < sanitized(name).len() ==> is_name_char(#[trigger] sanitized(name)[i]),
        sanitized(name).len() <= name.len(),
    decreases name.len(),
{
    if name.len() > 0 {
        sanitized_holds_name_chars(name.drop_last());
    }
}

} // verus!
