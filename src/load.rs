use vstd::prelude::*;
use crate::error::ChecklistError;
use std::path::PathBuf;

verus! {

/// `std::path::PathBuf`, carried through as an opaque value.
#[verifier::external_type_specification]
#[verifier::external_body]
pub struct ExPathBuf(PathBuf);

/// The name under which the checklist directory is looked up.
pub const APP_NAME: &'static str = "chrklst";

/// The byte that ends a line.
pub const NEWLINE: u8 = 10;

/// What `String::from_utf8_lossy` makes of the bytes `b`.
pub uninterp spec fn utf8_lossy(b: Seq<u8>) -> Seq<char>;

/// What `str::trim` leaves of `s`.
pub uninterp spec fn trimmed(s: Seq<char>) -> Seq<char>;

/// The pieces of `b` between newline bytes, in order; bytes without a
/// newline make one piece, and a trailing newline ends with an empty piece.
pub open spec fn lines_of(b: Seq<u8>) -> Seq<Seq<u8>>
    decreases b.len(),
{
    if b.len() == 0 {
        seq![Seq::empty()]
    } else {
        let init = lines_of(b.drop_last());
        if b.last() == NEWLINE {
            init.push(Seq::empty())
        } else {
            init.update(init.len() - 1, init.last().push(b.last()))
        }
    }
}

/// The text of one line of a checklist file: decoded, then trimmed.
pub open spec fn step_text(l: Seq<u8>) -> Seq<char> {
    trimmed(utf8_lossy(l))
}

/// Whether a line's text makes a step: something is left of it.
pub open spec fn is_step(t: Seq<char>) -> bool {
    t.len() > 0
}

/// The steps of a checklist file holding the bytes `b`: the text of each
/// line, kept only when it makes a step.
pub open spec fn checklist_of(b: Seq<u8>) -> Seq<Seq<char>> {
    lines_of(b).map_values(|l: Seq<u8>| step_text(l)).filter(|t: Seq<char>| is_step(t))
}

/// Relies on `String::from_utf8_lossy`: decodes `b` as UTF-8, replacing
/// invalid sequences; the text depends on the bytes alone.
#[verifier::external_body]
fn lossy_text(b: &[u8]) -> (r: String)
    ensures
        r@ == utf8_lossy(b@),
{
    String::from_utf8_lossy(b).into_owned()
}

/// Relies on `str::trim`: drops leading and trailing whitespace; the text
/// depends on `s` alone.
#[verifier::external_body]
fn trim_text(s: &str) -> (r: String)
    ensures
        r@ == trimmed(s@),
{
    s.trim().to_owned()
}

/// Relies on `platform_dirs::AppDirs::new`: the per-user data directory of
/// the application `name`, or `None` where no home directory is known. It
/// reads the environment, so nothing is stated of the result.
#[verifier::external_body]
fn app_data_dir(name: &str) -> (r: Option<PathBuf>) {
    platform_dirs::AppDirs::new(Some(name), true).map(|d| d.data_dir)
}

/// Splits `raw` at each newline byte.
pub fn split_lines(raw: &[u8]) -> (r: Vec<Vec<u8>>)
    ensures
        r@.map_values(|l: Vec<u8>| l@) == lines_of(raw@),
{
    let mut lines: Vec<Vec<u8>> = Vec::new();
    let mut cur: Vec<u8> = Vec::new();
    let mut i: usize = 0;
    assert(raw@.take(0) =~= Seq::<u8>::empty());
    while i < raw.len()
        invariant
            i <= raw@.len(),
            lines@.map_values(|l: Vec<u8>| l@).push(cur@) == lines_of(raw@.take(i as int)),
        decreases raw@.len() - i,
    {
        let ghost before = raw@.take(i as int);
        let b = raw[i];
        assert(raw@.take(i + 1).drop_last() =~= before);
        assert(raw@.take(i + 1).last() == b);
        if b == NEWLINE {
            let done = cur;
            proof {
                assert(lines@.map_values(|l: Vec<u8>| l@).push(done@) =~= lines@.push(
                    done,
                ).map_values(|l: Vec<u8>| l@));
            }
            lines.push(done);
            cur = Vec::new();
            assert(lines@.map_values(|l: Vec<u8>| l@).push(cur@) =~= lines_of(
                raw@.take(i + 1),
            ));
        } else {
            cur.push(b);
            assert(lines@.map_values(|l: Vec<u8>| l@).push(cur@) =~= lines_of(
                raw@.take(i + 1),
            ));
        }
        i = i + 1;
    }
    assert(raw@.take(raw@.len() as int) =~= raw@);
    let ghost prior = lines@;
    lines.push(cur);
    assert(lines@.map_values(|l: Vec<u8>| l@) =~= prior.map_values(|l: Vec<u8>| l@).push(cur@));
    lines
}

/// Keeps the lines that are not empty, in order.
pub fn non_empty(lines: Vec<String>) -> (r: Vec<String>)
    ensures
        r@.map_values(|s: String| s@) == lines@.map_values(|s: String| s@).filter(
            |t: Seq<char>| is_step(t),
        ),
{
    let ghost all = lines@.map_values(|s: String| s@);
    let mut kept: Vec<String> = Vec::new();
    let mut i: usize = 0;
    let n = lines.len();
    assert(all.take(0) =~= Seq::<Seq<char>>::empty());
    assert(Seq::<Seq<char>>::empty().filter(|t: Seq<char>| is_step(t)) =~= Seq::empty()) by {
        reveal(Seq::filter);
    }
    while i < n
        invariant
            n == lines@.len(),
            all == lines@.map_values(|s: String| s@),
            i <= n,
            kept@.map_values(|s: String| s@) == all.take(i as int).filter(
                |t: Seq<char>| is_step(t),
            ),
        decreases n - i,
    {
        assert(all.take(i + 1) =~= all.take(i as int).push(all[i as int]));
        assert(all[i as int] == lines@[i as int]@);
        proof {
            all.take(i as int).lemma_filter_push(all[i as int], |t: Seq<char>| is_step(t));
        }
        if !lines[i].as_str().is_empty() {
            let ghost prior = kept@;
            kept.push(lines[i].clone());
            assert(kept@.map_values(|s: String| s@) =~= prior.map_values(|s: String| s@).push(
                all[i as int],
            ));
        }
        i = i + 1;
    }
    assert(all.take(n as int) =~= all);
    kept
}

/// The steps of a checklist file holding the bytes `raw`: its lines,
/// decoded, trimmed, and without the empty ones, in order.
pub fn parse_checklist(raw: &[u8]) -> (r: Vec<String>)
    ensures
        r@.map_values(|s: String| s@) == checklist_of(raw@),
{
    let lines = split_lines(raw);
    let ghost pieces = lines_of(raw@);
    let mut texts: Vec<String> = Vec::new();
    let mut i: usize = 0;
    while i < lines.len()
        invariant
            i <= lines@.len(),
            lines@.map_values(|l: Vec<u8>| l@) == pieces,
            texts@.map_values(|s: String| s@) == pieces.take(i as int).map_values(
                |l: Seq<u8>| step_text(l),
            ),
        decreases lines@.len() - i,
    {
        let decoded = lossy_text(lines[i].as_slice());
        let t = trim_text(decoded.as_str());
        let ghost prior = texts@;
        let ghost piece = pieces[i as int];
        texts.push(t);
        assert(lines@[i as int]@ == piece);
        assert(pieces.take(i + 1).map_values(|l: Seq<u8>| step_text(l)) =~= pieces.take(
            i as int,
        ).map_values(|l: Seq<u8>| step_text(l)).push(step_text(piece)));
        assert(texts@.map_values(|s: String| s@) =~= prior.map_values(|s: String| s@).push(
            step_text(piece),
        ));
        i = i + 1;
    }
    assert(pieces.take(lines@.len() as int) =~= pieces);
    non_empty(texts)
}

/// The outcome of looking up the checklist directory, given what the lookup
/// found.
pub fn data_dir_or_error(found: Option<PathBuf>) -> (r: Result<PathBuf, ChecklistError>)
    ensures
        found is Some <==> r is Ok,
        found matches Some(p) ==> r == Ok::<PathBuf, ChecklistError>(p),
        r matches Err(e) ==> e@ == "Couldn't get app data dir"@,
{
    match found {
        Some(p) => Ok(p),
        None => Err(ChecklistError::from("Couldn't get app data dir")),
    }
}

/// The directory that holds the checklists; an error where the platform
/// offers no data directory.
pub fn checklist_dir() -> (r: Result<PathBuf, ChecklistError>)
    ensures
        r matches Err(e) ==> e@ == "Couldn't get app data dir"@,
{
    data_dir_or_error(app_data_dir(APP_NAME))
}

} // verus!
