//! The listing of the backups on a WebDAV server, read from the
//! multi-status answer to a `PROPFIND` of depth one.

use vstd::prelude::*;
use vstd::arithmetic::div_mod::lemma_div_denominator;
use crate::models::{CloudBackupFile, FileView};
use crate::text::{
    append, chars_of, comes_before, decimal, ends_with, final_segment, has_prefix, has_suffix,
    last_segment, lex_less, optional_text, padded, parse_u64, parsed_u64, render_decimal, render_padded,
    starts_with, string_of, trim_end, trimmed_end,
};

verus! {

/// What one `response` element of a multi-status answer says of its
/// resource, each part `None` where the element does not hold it.
#[derive(Clone, Debug)]
pub struct ResourceFields {
    /// The resource's path: its `href`, percent-decoded.
    pub path: Option<String>,
    /// The digits of `getcontentlength`.
    pub length: Option<String>,
    /// The text of `getlastmodified`.
    pub modified: Option<String>,
}

/// The mathematical value of a `ResourceFields`.
pub struct FieldsView {
    pub path: Option<Seq<char>>,
    pub length: Option<Seq<char>>,
    pub modified: Option<Seq<char>>,
}

impl View for ResourceFields {
    type V = FieldsView;

    open spec fn view(&self) -> FieldsView {
        FieldsView {
            path: optional_text(self.path),
            length: optional_text(self.length),
            modified: optional_text(self.modified),
        }
    }
}

/// The gap between neighbouring double-precision numbers at `n`.
pub open spec fn spacing(n: nat) -> nat
    decreases n,
{
    if n < 0x20_0000_0000_0000 {
        1
    } else {
        2 * spacing(n / 2)
    }
}

/// `n / step` rounded to the nearest whole number, a tie going to the even
/// one.
pub open spec fn rounded_quotient(n: nat, step: nat) -> nat {
    let q = n / step;
    let r = n % step;
    if 2 * r > step || (2 * r == step && q % 2 == 1) {
        q + 1
    } else {
        q
    }
}

/// The double-precision number nearest to `n`, a tie going to the even
/// mantissa.
pub open spec fn nearest_double(n: nat) -> nat {
    rounded_quotient(n, spacing(n)) * spacing(n)
}

/// A size in hundredths of a megabyte of 1024 * 1024 bytes: the byte count
/// is first taken to the nearest double-precision number, and the quotient
/// is rounded to the nearest hundredth, a tie going to the even one.
pub open spec fn hundredths_of_megabyte(bytes: nat) -> nat {
    rounded_quotient(nearest_double(bytes) * 100, 0x10_0000)
}

/// A size as the listing shows it: megabytes with two decimals, then ` MB`.
pub open spec fn size_label(bytes: nat) -> Seq<char> {
    let h = hundredths_of_megabyte(bytes);
    decimal(h / 100) + seq!['.'] + padded(h % 100, 2) + " MB"@
}

/// The name under which a resource is shown: the last segment of its path,
/// trailing slashes apart.
pub open spec fn display_name(path: Seq<char>) -> Seq<char> {
    last_segment(trim_end(path, '/'), '/')
}

/// `name` follows the naming of backups: `backup_` in front, `.zip` behind.
pub open spec fn is_backup_name(name: Seq<char>) -> bool {
    starts_with(name, "backup_"@) && ends_with(name, ".zip"@)
}

/// The size in bytes that the digits give: 0 where there are none or they
/// denote no `u64`.
pub open spec fn content_length(length: Option<Seq<char>>) -> nat {
    match length {
        Some(digits) => match parsed_u64(digits) {
            Some(v) => v as nat,
            None => 0,
        },
        None => 0,
    }
}

/// The date shown: the server's text, or `Unknown` where it gave none.
pub open spec fn date_text(modified: Option<Seq<char>>) -> Seq<char> {
    match modified {
        Some(d) => d,
        None => "Unknown"@,
    }
}

/// The backup that a resource is listed as; `None` where it has no path or
/// its name is not that of a backup.
pub open spec fn listed_file(f: FieldsView) -> Option<FileView> {
    match f.path {
        None => None,
        Some(path) => if is_backup_name(display_name(path)) {
            Some(
                FileView {
                    name: display_name(path),
                    date: date_text(f.modified),
                    size: size_label(content_length(f.length)),
                },
            )
        } else {
            None
        },
    }
}

/// The backups among the resources, in the order of the answer.
pub open spec fn listed_files(fields: Seq<FieldsView>) -> Seq<FileView>
    decreases fields.len(),
{
    if fields.len() == 0 {
        Seq::empty()
    } else {
        match listed_file(fields.last()) {
            Some(f) => listed_files(fields.drop_last()).push(f),
            None => listed_files(fields.drop_last()),
        }
    }
}

/// `sorted` with `x` put behind every file whose name is not less than its
/// own.
pub open spec fn insert_descending(sorted: Seq<FileView>, x: FileView) -> Seq<FileView>
    decreases sorted.len(),
{
    if sorted.len() > 0 && lex_less(sorted.last().name, x.name) {
        insert_descending(sorted.drop_last(), x).push(sorted.last())
    } else {
        sorted.push(x)
    }
}

/// The files by name, greatest first; files of one name keep their order.
pub open spec fn newest_first(files: Seq<FileView>) -> Seq<FileView>
    decreases files.len(),
{
    if files.len() == 0 {
        Seq::empty()
    } else {
        insert_descending(newest_first(files.drop_last()), files.last())
    }
}

/// The listing that the resources give: the backups among them, by name,
/// greatest first.
pub open spec fn listing(fields: Seq<FieldsView>) -> Seq<FileView> {
    newest_first(listed_files(fields))
}

/// The values of the given files.
pub open spec fn file_views(files: Seq<CloudBackupFile>) -> Seq<FileView> {
    files.map_values(|f: CloudBackupFile| f@)
}

/// The values of the given fields.
pub open spec fn field_views(fields: Seq<ResourceFields>) -> Seq<FieldsView> {
    fields.map_values(|f: ResourceFields| f@)
}

proof fn spacing_is_small_power(n: nat)
    ensures
        spacing(n) >= 1,
        n < 0x1_0000_0000_0000_0000 ==> spacing(n) <= 0x800,
        n < 0x8000_0000_0000_0000 ==> spacing(n) <= 0x400,
        n < 0x4000_0000_0000_0000 ==> spacing(n) <= 0x200,
        n < 0x2000_0000_0000_0000 ==> spacing(n) <= 0x100,
        n < 0x1000_0000_0000_0000 ==> spacing(n) <= 0x80,
        n < 0x800_0000_0000_0000 ==> spacing(n) <= 0x40,
        n < 0x400_0000_0000_0000 ==> spacing(n) <= 0x20,
        n < 0x200_0000_0000_0000 ==> spacing(n) <= 0x10,
        n < 0x100_0000_0000_0000 ==> spacing(n) <= 8,
        n < 0x80_0000_0000_0000 ==> spacing(n) <= 4,
        n < 0x40_0000_0000_0000 ==> spacing(n) <= 2,
    decreases n,
{
    if n >= 0x20_0000_0000_0000 {
        spacing_is_small_power(n / 2);
    }
}

/// A size as the listing shows it.
pub fn render_size(bytes: u64) -> (out: Vec<char>)
    ensures
        out@ == size_label(bytes as nat),
{
    let mut step: u64 = 1;
    let mut m: u64 = bytes;
    while m >= 0x20_0000_0000_0000
        invariant
            1 <= step,
            m == bytes / step,
            spacing(bytes as nat) == step * spacing(m as nat),
        decreases m,
    {
        proof {
            lemma_div_denominator(bytes as int, step as int, 2);
            spacing_is_small_power(bytes as nat);
            spacing_is_small_power((m / 2) as nat);
            assert(step * (2 * spacing((m / 2) as nat)) == (step * 2) * spacing((m / 2) as nat))
                by (nonlinear_arith);
            assert(step * 2 <= (step * 2) * spacing((m / 2) as nat)) by (nonlinear_arith)
                requires
                    spacing((m / 2) as nat) >= 1,
                    step >= 1,
            ;
        }
        m = m / 2;
        step = step * 2;
    }
    proof {
        spacing_is_small_power(bytes as nat);
        assert(spacing(m as nat) == 1);
        assert(step * 1 == step);
        assert(step == spacing(bytes as nat));
    }
    let q: u128 = (bytes / step) as u128;
    let r: u128 = (bytes % step) as u128;
    let mantissa: u128 = if 2 * r > step as u128 || (2 * r == step as u128 && q % 2 == 1) {
        q + 1
    } else {
        q
    };
    assert(mantissa * step <= 0x1_0000_0000_0000_0000 * 0x800) by (nonlinear_arith)
        requires
            mantissa <= 0x1_0000_0000_0000_0000,
            step <= 0x800,
    ;
    let nearest: u128 = mantissa * (step as u128);
    assert(nearest == nearest_double(bytes as nat));
    let scaled: u128 = nearest * 100;
    let whole: u128 = scaled / 0x10_0000;
    let rest: u128 = scaled % 0x10_0000;
    let hundredths: u128 = if 2 * rest > 0x10_0000 || (2 * rest == 0x10_0000 && whole % 2 == 1) {
        whole + 1
    } else {
        whole
    };
    assert(hundredths == hundredths_of_megabyte(bytes as nat));
    let mut out = render_decimal(hundredths / 100);
    out.push('.');
    let cents = render_padded(hundredths % 100, 2);
    append(&mut out, &cents);
    let unit = chars_of(" MB");
    append(&mut out, &unit);
    proof {
        assert(decimal((hundredths / 100) as nat).push('.') =~= decimal((hundredths / 100) as nat)
            + seq!['.']);
    }
    out
}

/// The name under which the resource at `path` is listed; `None` where that
/// is not the name of a backup.
fn backup_name(path: &str) -> (r: Option<Vec<char>>)
    ensures
        match r {
            Some(name) => is_backup_name(display_name(path@)) && name@ == display_name(path@),
            None => !is_backup_name(display_name(path@)),
        },
{
    let name = final_segment(&trimmed_end(&chars_of(path), '/'), '/');
    let prefix = chars_of("backup_");
    let suffix = chars_of(".zip");
    if has_prefix(&name, &prefix) && has_suffix(&name, &suffix) {
        Some(name)
    } else {
        None
    }
}

/// The listed file of the given name, with its size and date as the
/// resource's fields give them.
fn file_named(name: &Vec<char>, length: &Option<String>, modified: &Option<String>) -> (file:
    CloudBackupFile)
    ensures
        file@ == (FileView {
            name: name@,
            date: date_text(optional_text(*modified)),
            size: size_label(content_length(optional_text(*length))),
        }),
{
    let bytes: u64 = match length {
        Some(digits) => match parse_u64(&chars_of(digits.as_str())) {
            Some(v) => v,
            None => 0,
        },
        None => 0,
    };
    let date: String = match modified {
        Some(d) => d.clone(),
        None => "Unknown".to_owned(),
    };
    CloudBackupFile { name: string_of(name), date, size: string_of(&render_size(bytes)) }
}

/// The backup that a resource is listed as; `None` where it has no path or
/// its name is not that of a backup.
pub fn file_from_fields(fields: &ResourceFields) -> (r: Option<CloudBackupFile>)
    ensures
        match listed_file(fields@) {
            Some(f) => r matches Some(file) && file@ == f,
            None => r is None,
        },
{
    match &fields.path {
        Some(path) => match backup_name(path.as_str()) {
            Some(name) => Some(file_named(&name, &fields.length, &fields.modified)),
            None => None,
        },
        None => None,
    }
}

proof fn insert_descending_is_insert(sorted: Seq<FileView>, x: FileView, i: int)
    requires
        0 <= i <= sorted.len(),
        forall|j: int| i <= j < sorted.len() ==> lex_less(#[trigger] sorted[j].name, x.name),
        i == 0 || !lex_less(sorted[i - 1].name, x.name),
    ensures
        insert_descending(sorted, x) == sorted.insert(i, x),
    decreases sorted.len() - i,
{
    if i == sorted.len() {
        assert(sorted.push(x) =~= sorted.insert(i, x));
    } else {
        assert(lex_less(sorted[sorted.len() - 1].name, x.name));
        insert_descending_is_insert(sorted.drop_last(), x, i);
        assert(sorted.drop_last().insert(i, x).push(sorted.last()) =~= sorted.insert(i, x));
    }
}

/// Puts `file` into `sorted` behind every file whose name is not less than
/// its own.
fn insert_by_name(sorted: &mut Vec<CloudBackupFile>, file: CloudBackupFile)
    ensures
        file_views(final(sorted)@) == insert_descending(file_views(old(sorted)@), file@),
{
    let name = chars_of(file.name.as_str());
    let mut i: usize = sorted.len();
    let mut searching: bool = true;
    while i > 0 && searching
        invariant
            i <= sorted.len(),
            sorted@ == old(sorted)@,
            name@ == file@.name,
            forall|j: int| i <= j < sorted.len() ==> lex_less(#[trigger] sorted@[j]@.name, name@),
            !searching ==> i > 0 && !lex_less(sorted@[i - 1]@.name, name@),
        decreases i + (if searching { 1nat } else { 0nat }),
    {
        let other = chars_of(sorted[i - 1].name.as_str());
        if comes_before(&other, &name) {
            i -= 1;
        } else {
            searching = false;
        }
    }
    proof {
        let views = file_views(old(sorted)@);
        assert forall|j: int| i <= j < views.len() implies lex_less(
            #[trigger] views[j].name,
            file@.name,
        ) by {
            assert(views[j] == sorted@[j]@);
        }
        insert_descending_is_insert(views, file@, i as int);
        assert(file_views(old(sorted)@.insert(i as int, file)) =~= views.insert(i as int, file@));
    }
    sorted.insert(i, file);
}

/// The listing that the resources give: the backups among them, by name,
/// greatest first, files of one name in the order of the answer.
pub fn listing_from_fields(fields: &Vec<ResourceFields>) -> (files: Vec<CloudBackupFile>)
    ensures
        file_views(files@) == listing(field_views(fields@)),
{
    let mut files: Vec<CloudBackupFile> = Vec::new();
    let mut k: usize = 0;
    assert(file_views(files@) =~= Seq::<FileView>::empty());
    while k < fields.len()
        invariant
            k <= fields.len(),
            file_views(files@) == listing(field_views(fields@).take(k as int)),
        decreases fields.len() - k,
    {
        proof {
            let all = field_views(fields@);
            assert(all.take(k + 1).drop_last() =~= all.take(k as int));
            assert(all.take(k + 1).last() == fields@[k as int]@);
        }
        match file_from_fields(&fields[k]) {
            Some(file) => {
                proof {
                    let before = listed_files(field_views(fields@).take(k as int));
                    assert(before.push(file@).drop_last() =~= before);
                    assert(before.push(file@).last() == file@);
                }
                insert_by_name(&mut files, file);
            },
            None => {},
        }
        k += 1;
    }
    proof {
        let all = field_views(fields@);
        assert(all.take(all.len() as int) =~= all);
    }
    files
}

/// No file of `files` comes before one of a greater name.
pub open spec fn descending(files: Seq<FileView>) -> bool {
    forall|i: int, j: int|
        0 <= i < j < files.len() ==> !lex_less(#[trigger] files[i].name, #[trigger] files[j].name)
}

/// Of two texts at most one is less than the other.
pub proof fn lex_less_is_asymmetric(a: Seq<char>, b: Seq<char>)
    ensures
        !(lex_less(a, b) && lex_less(b, a)),
    decreases a.len(),
{
    if a.len() > 0 && b.len() > 0 && a[0] == b[0] {
        lex_less_is_asymmetric(a.drop_first(), b.drop_first());
    }
}

/// A text that is less than `c` is less than `b`, or `b` is less than `c`.
pub proof fn lex_less_splits(a: Seq<char>, b: Seq<char>, c: Seq<char>)
    requires
        lex_less(a, c),
    ensures
        lex_less(a, b) || lex_less(b, c),
    decreases a.len(),
{
    if a.len() > 0 && b.len() > 0 && c.len() > 0 && a[0] == b[0] && b[0] == c[0] {
        lex_less_splits(a.drop_first(), b.drop_first(), c.drop_first());
    }
}

proof fn insert_keeps_descending(sorted: Seq<FileView>, x: FileView)
    requires
        descending(sorted),
    ensures
        descending(insert_descending(sorted, x)),
        insert_descending(sorted, x).len() == sorted.len() + 1,
        forall|y: FileView| #[trigger]
            insert_descending(sorted, x).contains(y) ==> y == x || sorted.contains(y),
    decreases sorted.len(),
{
    let out = insert_descending(sorted, x);
    if sorted.len() > 0 && lex_less(sorted.last().name, x.name) {
        let front = sorted.drop_last();
        let last = sorted.last();
        assert(descending(front)) by {
            assert forall|i: int, j: int| 0 <= i < j < front.len() implies !lex_less(
                #[trigger] front[i].name,
                #[trigger] front[j].name,
            ) by {
                assert(front[i] == sorted[i] && front[j] == sorted[j]);
            }
        }
        insert_keeps_descending(front, x);
        let inner = insert_descending(front, x);
        assert forall|i: int, j: int| 0 <= i < j < out.len() implies !lex_less(
            #[trigger] out[i].name,
            #[trigger] out[j].name,
        ) by {
            if j < inner.len() {
                assert(out[i] == inner[i] && out[j] == inner[j]);
            } else {
                assert(out[j] == last);
                assert(out[i] == inner[i]);
                assert(inner.contains(inner[i]));
                if inner[i] == x {
                    lex_less_is_asymmetric(last.name, x.name);
                } else {
                    assert(front.contains(inner[i]));
                    let k = choose|k: int| 0 <= k < front.len() && front[k] == inner[i];
                    assert(sorted[k] == front[k]);
                    assert(!lex_less(sorted[k].name, sorted[sorted.len() - 1].name));
                }
            }
        }
        assert forall|y: FileView| #[trigger] out.contains(y) implies y == x || sorted.contains(
            y,
        ) by {
            let k = choose|k: int| 0 <= k < out.len() && out[k] == y;
            if k < inner.len() {
                assert(inner.contains(inner[k]));
                if y != x {
                    let m = choose|m: int| 0 <= m < front.len() && front[m] == y;
                    assert(sorted[m] == y);
                }
            } else {
                assert(sorted[sorted.len() - 1] == y);
            }
        }
    } else {
        assert forall|i: int, j: int| 0 <= i < j < out.len() implies !lex_less(
            #[trigger] out[i].name,
            #[trigger] out[j].name,
        ) by {
            if j < sorted.len() {
                assert(out[i] == sorted[i] && out[j] == sorted[j]);
            } else {
                assert(out[j] == x);
                assert(out[i] == sorted[i]);
                if lex_less(sorted[i].name, x.name) {
                    lex_less_splits(sorted[i].name, sorted.last().name, x.name);
                    if i < sorted.len() - 1 {
                        assert(!lex_less(sorted[i].name, sorted[sorted.len() - 1].name));
                    }
                }
            }
        }
        assert forall|y: FileView| #[trigger] out.contains(y) implies y == x || sorted.contains(
            y,
        ) by {
            let k = choose|k: int| 0 <= k < out.len() && out[k] == y;
            if k < sorted.len() {
                assert(sorted[k] == y);
            }
        }
    }
}

/// Ordering by name gives a sequence in which no file comes before one of
/// a greater name, and which holds no file that was not given.
pub proof fn newest_first_is_descending(files: Seq<FileView>)
    ensures
        descending(newest_first(files)),
        newest_first(files).len() == files.len(),
        forall|y: FileView| #[trigger] newest_first(files).contains(y) ==> files.contains(y),
    decreases files.len(),
{
    if files.len() > 0 {
        let front = files.drop_last();
        newest_first_is_descending(front);
        insert_keeps_descending(newest_first(front), files.last());
        assert forall|y: FileView| #[trigger] newest_first(files).contains(y) implies files.contains(
            y,
        ) by {
            if y == files.last() {
                assert(files[files.len() - 1] == y);
            } else {
                assert(newest_first(front).contains(y));
                let k = choose|k: int| 0 <= k < front.len() && front[k] == y;
                assert(files[k] == y);
            }
        }
    }
}

proof fn insert_keeps_what_was_there(sorted: Seq<FileView>, x: FileView)
    ensures
        insert_descending(sorted, x).contains(x),
        forall|y: FileView| sorted.contains(y) ==> #[trigger] insert_descending(sorted, x).contains(y),
    decreases sorted.len(),
{
    let out = insert_descending(sorted, x);
    if sorted.len() > 0 && lex_less(sorted.last().name, x.name) {
        let front = sorted.drop_last();
        insert_keeps_what_was_there(front, x);
        let inner = insert_descending(front, x);
        let k = choose|k: int| 0 <= k < inner.len() && inner[k] == x;
        assert(out[k] == x);
        assert forall|y: FileView| sorted.contains(y) implies #[trigger] out.contains(y) by {
            let i = choose|i: int| 0 <= i < sorted.len() && sorted[i] == y;
            if i < front.len() {
                assert(front[i] == y);
                assert(inner.contains(y));
                let j = choose|j: int| 0 <= j < inner.len() && inner[j] == y;
                assert(out[j] == y);
            } else {
                assert(out[out.len() - 1] == y);
            }
        }
    } else {
        assert(out[out.len() - 1] == x);
        assert forall|y: FileView| sorted.contains(y) implies #[trigger] out.contains(y) by {
            let i = choose|i: int| 0 <= i < sorted.len() && sorted[i] == y;
            assert(out[i] == y);
        }
    }
}

/// Ordering by name loses no file: every file that was given is in the
/// result.
pub proof fn newest_first_keeps_every_file(files: Seq<FileView>)
    ensures
        forall|y: FileView| files.contains(y) ==> #[trigger] newest_first(files).contains(y),
    decreases files.len(),
{
    if files.len() > 0 {
        let front = files.drop_last();
        newest_first_keeps_every_file(front);
        insert_keeps_what_was_there(newest_first(front), files.last());
        assert forall|y: FileView| files.contains(y) implies #[trigger] newest_first(
            files,
        ).contains(y) by {
            let i = choose|i: int| 0 <= i < files.len() && files[i] == y;
            if i < front.len() {
                assert(front[i] == y);
                assert(front.contains(y));
            }
        }
    }
}

/// Every file among the listed ones bears the name of a backup.
pub proof fn listed_files_are_backups(fields: Seq<FieldsView>)
    ensures
        forall|i: int|
            0 <= i < listed_files(fields).len() ==> is_backup_name(
                #[trigger] listed_files(fields)[i].name,
            ),
    decreases fields.len(),
{
    if fields.len() > 0 {
        listed_files_are_backups(fields.drop_last());
        let front = listed_files(fields.drop_last());
        assert forall|i: int| 0 <= i < listed_files(fields).len() implies is_backup_name(
            #[trigger] listed_files(fields)[i].name,
        ) by {
            if i < front.len() {
                assert(listed_files(fields)[i] == front[i]);
            }
        }
    }
}

/// A listing holds backups only, and none of them before one of a greater
/// name.
pub proof fn listing_is_filtered_and_ordered(fields: Seq<FieldsView>)
    ensures
        descending(listing(fields)),
        forall|i: int|
            0 <= i < listing(fields).len() ==> is_backup_name(#[trigger] listing(fields)[i].name),
{
    let listed = listed_files(fields);
    newest_first_is_descending(listed);
    listed_files_are_backups(fields);
    assert forall|i: int| 0 <= i < listing(fields).len() implies is_backup_name(
        #[trigger] listing(fields)[i].name,
    ) by {
        let y = listing(fields)[i];
        assert(newest_first(listed).contains(y));
        let k = choose|k: int| 0 <= k < listed.len() && listed[k] == y;
        assert(is_backup_name(listed[k].name));
    }
}

/// The text that the first capture group of the regular expression
/// `pattern` takes in its first match in `haystack`; `None` where there is
/// no match, where the group takes no part in it, and where `pattern` is no
/// regular expression.
pub uninterp spec fn first_group(pattern: Seq<char>, haystack: Seq<char>) -> Option<Seq<char>>;

/// For each of the successive matches of the regular expression `pattern`
/// in `haystack`, the text of its first capture group, `None` where the
/// group takes no part; no matches where `pattern` is no regular
/// expression.
pub uninterp spec fn first_groups(pattern: Seq<char>, haystack: Seq<char>) -> Seq<
    Option<Seq<char>>,
>;

/// `text` with its percent escapes replaced by the bytes they stand for;
/// `None` where the outcome is no UTF-8.
pub uninterp spec fn percent_decoded(text: Seq<char>) -> Option<Seq<char>>;

/// The texts of the given optional strings.
pub open spec fn optional_texts(strings: Seq<Option<String>>) -> Seq<Option<Seq<char>>> {
    strings.map_values(|s: Option<String>| optional_text(s))
}

/// Compiles `pattern` with `Regex::new` of the crate `regex` and takes the
/// first match with `Regex::captures`. The result is named `first_group`.
#[verifier::external_body]
fn capture_first(pattern: &str, haystack: &str) -> (group: Option<String>)
    ensures
        optional_text(group) == first_group(pattern@, haystack@),
{
    let re = regex::Regex::new(pattern).ok()?;
    let found = re.captures(haystack)?;
    found.get(1).map(|m| m.as_str().to_string())
}

/// Compiles `pattern` with `Regex::new` of the crate `regex` and walks the
/// matches with `Regex::captures_iter`. The result is named `first_groups`.
#[verifier::external_body]
fn capture_all(pattern: &str, haystack: &str) -> (groups: Vec<Option<String>>)
    ensures
        optional_texts(groups@) == first_groups(pattern@, haystack@),
{
    match regex::Regex::new(pattern) {
        Ok(re) => re.captures_iter(haystack).map(
            |c| c.get(1).map(|m| m.as_str().to_string()),
        ).collect(),
        Err(_) => Vec::new(),
    }
}

/// Calls `decode` of the crate `urlencoding`. The result is named
/// `percent_decoded`.
#[verifier::external_body]
fn percent_decode(text: &str) -> (decoded: Option<String>)
    ensures
        optional_text(decoded) == percent_decoded(text@),
{
    urlencoding::decode(text).ok().map(|c| c.into_owned())
}

/// The pattern of one `response` element; its group is the element's
/// content.
pub const RESPONSE_PATTERN: &'static str = r"(?s)<[\w:]*response>(.*?)</[\w:]*response>";

/// The pattern of an `href` element; its group is the element's content.
pub const HREF_PATTERN: &'static str = r"<[\w:]*href>(.*?)</[\w:]*href>";

/// The pattern of a `getcontentlength` element; its group is the run of
/// digits that the element holds.
pub const LENGTH_PATTERN: &'static str =
    r"<[\w:]*getcontentlength[^>]*>(\d+)</[\w:]*getcontentlength>";

/// The pattern of a `getlastmodified` element; its group is the element's
/// content.
pub const MODIFIED_PATTERN: &'static str =
    r"<[\w:]*getlastmodified[^>]*>(.*?)</[\w:]*getlastmodified>";

/// The path that an `href` stands for: its percent-decoded text, or the
/// `href` as it is where that cannot be had.
pub open spec fn decoded_path(href: Seq<char>) -> Seq<char> {
    match percent_decoded(href) {
        Some(path) => path,
        None => href,
    }
}

/// What the content of one `response` element says of its resource.
pub open spec fn block_fields(block: Seq<char>) -> FieldsView {
    FieldsView {
        path: match first_group(HREF_PATTERN@, block) {
            Some(href) => Some(decoded_path(href)),
            None => None,
        },
        length: first_group(LENGTH_PATTERN@, block),
        modified: first_group(MODIFIED_PATTERN@, block),
    }
}

/// The content of a `response` element that was matched: empty where its
/// group took no part in the match.
pub open spec fn block_text(group: Option<Seq<char>>) -> Seq<char> {
    match group {
        Some(block) => block,
        None => Seq::empty(),
    }
}

/// What a multi-status answer says of its resources, one after the other.
pub open spec fn body_fields(body: Seq<char>) -> Seq<FieldsView> {
    first_groups(RESPONSE_PATTERN@, body).map_values(
        |group: Option<Seq<char>>| block_fields(block_text(group)),
    )
}

/// The listing that a multi-status answer gives.
pub open spec fn body_listing(body: Seq<char>) -> Seq<FileView> {
    listing(body_fields(body))
}

/// What the content of one `response` element says of its resource.
fn read_block(block: &str) -> (fields: ResourceFields)
    ensures
        fields@ == block_fields(block@),
{
    let path = match capture_first(HREF_PATTERN, block) {
        Some(href) => match percent_decode(href.as_str()) {
            Some(path) => Some(path),
            None => Some(href),
        },
        None => None,
    };
    let length = capture_first(LENGTH_PATTERN, block);
    let modified = capture_first(MODIFIED_PATTERN, block);
    ResourceFields { path, length, modified }
}

/// What a multi-status answer says of its resources, one after the other:
/// of each `response` element the `href`, percent-decoded, the content
/// length and the date of last change.
pub fn read_fields(body: &str) -> (fields: Vec<ResourceFields>)
    ensures
        field_views(fields@) == body_fields(body@),
{
    let blocks = capture_all(RESPONSE_PATTERN, body);
    let empty = String::new();
    let mut fields: Vec<ResourceFields> = Vec::new();
    let mut k: usize = 0;
    assert(field_views(fields@) =~= body_fields(body@).take(0));
    while k < blocks.len()
        invariant
            k <= blocks.len(),
            empty@ == Seq::<char>::empty(),
            optional_texts(blocks@) == first_groups(RESPONSE_PATTERN@, body@),
            field_views(fields@) == body_fields(body@).take(k as int),
        decreases blocks.len() - k,
    {
        let block: &str = match &blocks[k] {
            Some(block) => block.as_str(),
            None => empty.as_str(),
        };
        assert(block@ == block_text(optional_texts(blocks@)[k as int]));
        let record = read_block(block);
        proof {
            let all = body_fields(body@);
            assert(all[k as int] == record@);
            assert(field_views(fields@.push(record)) =~= field_views(fields@).push(record@));
            assert(all.take(k + 1) =~= all.take(k as int).push(all[k as int]));
        }
        fields.push(record);
        k += 1;
    }
    proof {
        let all = body_fields(body@);
        assert(all.take(all.len() as int) =~= all);
    }
    fields
}

/// The listing that a multi-status answer gives: the backups among its
/// resources, by name, greatest first.
pub fn parse_listing(body: &str) -> (files: Vec<CloudBackupFile>)
    ensures
        file_views(files@) == body_listing(body@),
{
    listing_from_fields(&read_fields(body))
}

} // verus!
