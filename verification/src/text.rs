//! Fixed-width text for the version listing: padding to column widths
//! and the exact lines the listing prints, two header lines first and
//! then one line per version, newest first.

use vstd::prelude::*;
use vstd::string::{StrSliceExecFns, StringExecFns};
use crate::manifest::{VersionManifest, version_list_rows, spec_date_of};

verus! {

/// `n` copies of one character.
pub open spec fn spec_repeat_char(c: char, n: nat) -> Seq<char> {
    Seq::new(n, |i: int| c)
}

/// Text padded on the right with spaces to the given width; text already
/// that wide is kept whole.
pub open spec fn spec_pad_right(s: Seq<char>, w: nat) -> Seq<char> {
    if s.len() >= w {
        s
    } else {
        s + spec_repeat_char(' ', (w - s.len()) as nat)
    }
}

/// Text padded on the left with spaces to the given width.
pub open spec fn spec_pad_left(s: Seq<char>, w: nat) -> Seq<char> {
    if s.len() >= w {
        s
    } else {
        spec_repeat_char(' ', (w - s.len()) as nat) + s
    }
}

/// Text centred to the given width; an odd surplus leaves the extra
/// space on the right.
pub open spec fn spec_center(s: Seq<char>, w: nat) -> Seq<char> {
    if s.len() >= w {
        s
    } else {
        let p = (w - s.len()) as nat;
        spec_repeat_char(' ', p / 2) + s + spec_repeat_char(' ', (p - p / 2) as nat)
    }
}

/// `n` spaces.
fn spaces(n: usize) -> (r: String)
    ensures
        r@ == spec_repeat_char(' ', n as nat),
{
    let mut r = String::new();
    proof {
        assert(r@ =~= spec_repeat_char(' ', 0));
    }
    let mut i: usize = 0;
    while i < n
        invariant
            i <= n,
            r@ == spec_repeat_char(' ', i as nat),
        decreases n - i,
    {
        r.append(" ");
        proof {
            reveal_strlit(" ");
            assert(r@ =~= spec_repeat_char(' ', (i + 1) as nat));
        }
        i = i + 1;
    }
    r
}

/// `n` dashes.
fn dashes(n: usize) -> (r: String)
    ensures
        r@ == spec_repeat_char('-', n as nat),
{
    let mut r = String::new();
    proof {
        assert(r@ =~= spec_repeat_char('-', 0));
    }
    let mut i: usize = 0;
    while i < n
        invariant
            i <= n,
            r@ == spec_repeat_char('-', i as nat),
        decreases n - i,
    {
        r.append("-");
        proof {
            reveal_strlit("-");
            assert(r@ =~= spec_repeat_char('-', (i + 1) as nat));
        }
        i = i + 1;
    }
    r
}

/// Pads text on the right with spaces to the given width.
pub fn pad_right(s: &str, width: usize) -> (r: String)
    ensures
        r@ == spec_pad_right(s@, width as nat),
{
    let len = s.unicode_len();
    if len >= width {
        s.to_owned()
    } else {
        let mut r = String::new();
        r.append(s);
        let pad = spaces(width - len);
        r.append(pad.as_str());
        proof {
            assert(r@ =~= spec_pad_right(s@, width as nat));
        }
        r
    }
}

/// Pads text on the left with spaces to the given width.
pub fn pad_left(s: &str, width: usize) -> (r: String)
    ensures
        r@ == spec_pad_left(s@, width as nat),
{
    let len = s.unicode_len();
    if len >= width {
        s.to_owned()
    } else {
        let mut r = spaces(width - len);
        r.append(s);
        proof {
            assert(r@ =~= spec_pad_left(s@, width as nat));
        }
        r
    }
}

/// Centres text to the given width.
pub fn center(s: &str, width: usize) -> (r: String)
    ensures
        r@ == spec_center(s@, width as nat),
{
    let len = s.unicode_len();
    if len >= width {
        s.to_owned()
    } else {
        let p = width - len;
        let mut r = spaces(p / 2);
        r.append(s);
        let right = spaces(p - p / 2);
        r.append(right.as_str());
        proof {
            assert(r@ =~= spec_center(s@, width as nat));
        }
        r
    }
}

/// One line of the listing: the three columns at widths twenty, eleven
/// and eleven, separated by bars; the id left-aligned, the kind centred,
/// the date right-aligned.
pub open spec fn spec_listing_line(id: Seq<char>, kind: Seq<char>, date: Seq<char>) -> Seq<char> {
    spec_pad_right(id, 20) + "|"@ + spec_center(kind, 11) + "|"@ + spec_pad_left(date, 11)
}

/// The listing's first line: the column titles.
pub open spec fn spec_listing_header() -> Seq<char> {
    spec_listing_line("ID"@, "Type"@, "Released"@)
}

/// The listing's second line: dashes under each column.
pub open spec fn spec_listing_separator() -> Seq<char> {
    spec_repeat_char('-', 20) + "|"@ + spec_repeat_char('-', 11) + "|"@ + spec_repeat_char('-', 11)
}

/// Formats one row of the listing.
pub fn listing_line(id: &str, kind: &str, date: &str) -> (r: String)
    ensures
        r@ == spec_listing_line(id@, kind@, date@),
{
    let mut r = pad_right(id, 20);
    r.append("|");
    let mid = center(kind, 11);
    r.append(mid.as_str());
    r.append("|");
    let right = pad_left(date, 11);
    r.append(right.as_str());
    proof {
        assert(r@ =~= spec_listing_line(id@, kind@, date@));
    }
    r
}

/// The whole version listing, line by line: the header, the separator,
/// then one line per manifest entry in reverse manifest order — newest
/// first — each dated by the first ten characters of its release
/// timestamp.
pub fn version_list_lines(m: &VersionManifest) -> (lines: Vec<String>)
    ensures
        lines@.len() == 2 + m.versions@.len(),
        lines@[0]@ == spec_listing_header(),
        lines@[1]@ == spec_listing_separator(),
        forall|i: int|
            0 <= i < m.versions@.len() ==> {
                let src = m.versions@[m.versions@.len() - 1 - i];
                (#[trigger] lines@[2 + i])@ == spec_listing_line(
                    src.id@,
                    src.kind@,
                    spec_date_of(src.release_time@),
                )
            },
{
    let mut lines: Vec<String> = Vec::new();
    let header = listing_line("ID", "Type", "Released");
    lines.push(header);
    let mut separator = dashes(20);
    separator.append("|");
    let d1 = dashes(11);
    separator.append(d1.as_str());
    separator.append("|");
    let d2 = dashes(11);
    separator.append(d2.as_str());
    proof {
        assert(separator@ =~= spec_listing_separator());
    }
    lines.push(separator);
    let rows = version_list_rows(m);
    let n = rows.len();
    let mut i: usize = 0;
    while i < n
        invariant
            n == rows@.len(),
            n == m.versions@.len(),
            i <= n,
            lines@.len() == 2 + i,
            lines@[0]@ == spec_listing_header(),
            lines@[1]@ == spec_listing_separator(),
            forall|k: int|
                0 <= k < n ==> {
                    &&& (#[trigger] rows@[k]).id@ == m.versions@[n - 1 - k].id@
                    &&& rows@[k].kind@ == m.versions@[n - 1 - k].kind@
                    &&& rows@[k].date@ == spec_date_of(m.versions@[n - 1 - k].release_time@)
                },
            forall|k: int|
                0 <= k < i ==> {
                    let src = m.versions@[n - 1 - k];
                    (#[trigger] lines@[2 + k])@ == spec_listing_line(
                        src.id@,
                        src.kind@,
                        spec_date_of(src.release_time@),
                    )
                },
        decreases n - i,
    {
        let row = &rows[i];
        let line = listing_line(row.id.as_str(), row.kind.as_str(), row.date.as_str());
        lines.push(line);
        i = i + 1;
    }
    lines
}

} // verus!
