//! Line syntax of pulsar parameter files: `KEY value ...` lines, with `#`
//! comment lines and blank lines ignored.
use vstd::prelude::*;

verus! {

/// The parameter keys that describe a pulsar.
#[derive(Debug, Clone, Copy, PartialEq, Eq, Structural)]
pub enum ParKey {
    /// `PSR` or `PSRJ`: the pulsar's name.
    Name,
    /// `RAJ`: right ascension as `hh:mm:ss`.
    RightAscension,
    /// `DECJ`: declination as `dd:mm:ss`.
    Declination,
    /// `F0`: rotation frequency.
    Frequency,
    /// `P0`: rotation period.
    Period,
}

/// The characters with the Unicode `White_Space` property.
pub open spec fn is_blank_spec(c: char) -> bool {
    ('\u{9}' <= c && c <= '\u{d}') || c == ' ' || c == '\u{85}' || c == '\u{a0}' || c
        == '\u{1680}' || ('\u{2000}' <= c && c <= '\u{200a}') || c == '\u{2028}' || c
        == '\u{2029}' || c == '\u{202f}' || c == '\u{205f}' || c == '\u{3000}'
}

/// Whether `c` separates words.
pub fn is_blank(c: char) -> (r: bool)
    ensures
        r == is_blank_spec(c),
{
    ('\u{9}' <= c && c <= '\u{d}') || c == ' ' || c == '\u{85}' || c == '\u{a0}' || c
        == '\u{1680}' || ('\u{2000}' <= c && c <= '\u{200a}') || c == '\u{2028}' || c
        == '\u{2029}' || c == '\u{202f}' || c == '\u{205f}' || c == '\u{3000}'
}

/// Scanning `s` from the left: the words completed so far and the word being
/// read.
pub open spec fn scan_words(s: Seq<char>) -> (Seq<Seq<char>>, Seq<char>)
    decreases s.len(),
{
    if s.len() == 0 {
        (Seq::empty(), Seq::empty())
    } else {
        let (done, cur) = scan_words(s.drop_last());
        if is_blank_spec(s.last()) {
            if cur.len() > 0 {
                (done.push(cur), Seq::empty())
            } else {
                (done, Seq::empty())
            }
        } else {
            (done, cur.push(s.last()))
        }
    }
}

/// The maximal runs of non-blank characters of `s`, in order.
pub open spec fn words(s: Seq<char>) -> Seq<Seq<char>> {
    let (done, cur) = scan_words(s);
    if cur.len() > 0 {
        done.push(cur)
    } else {
        done
    }
}

/// What a list of character vectors holds, as sequences.
pub open spec fn char_seqs(v: Seq<Vec<char>>) -> Seq<Seq<char>> {
    v.map_values(|w: Vec<char>| w@)
}

/// Splits a line into its words.
pub fn split_words(line: &Vec<char>) -> (r: Vec<Vec<char>>)
    ensures
        char_seqs(r@) == words(line@),
{
    let mut done: Vec<Vec<char>> = Vec::new();
    let mut cur: Vec<char> = Vec::new();
    let mut i: usize = 0;
    while i < line.len()
        invariant
            i <= line@.len(),
            (char_seqs(done@), cur@) == scan_words(line@.subrange(0, i as int)),
        decreases line@.len() - i,
    {
        let c = line[i];
        proof {
            let pre = line@.subrange(0, i as int + 1);
            assert(pre.drop_last() =~= line@.subrange(0, i as int));
            assert(pre.last() == c);
        }
        if is_blank(c) {
            if cur.len() > 0 {
                let ghost before = char_seqs(done@);
                let ghost w = cur@;
                done.push(cur);
                assert(char_seqs(done@) =~= before.push(w));
                cur = Vec::new();
            }
        } else {
            cur.push(c);
        }
        i = i + 1;
    }
    assert(line@.subrange(0, line@.len() as int) =~= line@);
    if cur.len() > 0 {
        let ghost before = char_seqs(done@);
        let ghost w = cur@;
        done.push(cur);
        assert(char_seqs(done@) =~= before.push(w));
    }
    done
}

/// The key that a word names, if any.
pub open spec fn key_of(w: Seq<char>) -> Option<ParKey> {
    if w == seq!['P', 'S', 'R'] || w == seq!['P', 'S', 'R', 'J'] {
        Some(ParKey::Name)
    } else if w == seq!['R', 'A', 'J'] {
        Some(ParKey::RightAscension)
    } else if w == seq!['D', 'E', 'C', 'J'] {
        Some(ParKey::Declination)
    } else if w == seq!['F', '0'] {
        Some(ParKey::Frequency)
    } else if w == seq!['P', '0'] {
        Some(ParKey::Period)
    } else {
        None
    }
}

/// Whether two character vectors hold the same characters.
pub fn same_chars(a: &Vec<char>, b: &Vec<char>) -> (r: bool)
    ensures
        r == (a@ == b@),
{
    if a.len() != b.len() {
        return false;
    }
    let mut i: usize = 0;
    while i < a.len()
        invariant
            a@.len() == b@.len(),
            i <= a@.len(),
            a@.subrange(0, i as int) == b@.subrange(0, i as int),
        decreases a@.len() - i,
    {
        if a[i] != b[i] {
            assert(a@[i as int] != b@[i as int]);
            return false;
        }
        assert(a@.subrange(0, i as int + 1) =~= a@.subrange(0, i as int).push(a@[i as int]));
        assert(b@.subrange(0, i as int + 1) =~= b@.subrange(0, i as int).push(b@[i as int]));
        i = i + 1;
    }
    assert(a@ =~= a@.subrange(0, i as int));
    assert(b@ =~= b@.subrange(0, i as int));
    true
}

/// The key that a word names, if any.
pub fn par_key(w: &Vec<char>) -> (r: Option<ParKey>)
    ensures
        r == key_of(w@),
{
    if same_chars(w, &vec!['P', 'S', 'R']) || same_chars(w, &vec!['P', 'S', 'R', 'J']) {
        Some(ParKey::Name)
    } else if same_chars(w, &vec!['R', 'A', 'J']) {
        Some(ParKey::RightAscension)
    } else if same_chars(w, &vec!['D', 'E', 'C', 'J']) {
        Some(ParKey::Declination)
    } else if same_chars(w, &vec!['F', '0']) {
        Some(ParKey::Frequency)
    } else if same_chars(w, &vec!['P', '0']) {
        Some(ParKey::Period)
    } else {
        None
    }
}

/// What a line of a parameter file gives: nothing for a comment line, a
/// line of fewer than two words or an unknown key; else the key and the word
/// after it.
pub open spec fn par_entry(line: Seq<char>) -> Option<(ParKey, Seq<char>)> {
    if line.len() > 0 && line[0] == '#' {
        None
    } else {
        let w = words(line);
        if w.len() < 2 {
            None
        } else {
            match key_of(w[0]) {
                Some(k) => Some((k, w[1])),
                None => None,
            }
        }
    }
}

/// Reads one line of a parameter file.
pub fn parse_par_line(line: &Vec<char>) -> (r: Option<(ParKey, Vec<char>)>)
    ensures
        r matches Some((k, v)) ==> par_entry(line@) == Some((k, v@)),
        r is None ==> par_entry(line@) is None,
{
    if line.len() > 0 && line[0] == '#' {
        return None;
    }
    let mut w = split_words(line);
    if w.len() < 2 {
        return None;
    }
    let ghost ws = char_seqs(w@);
    assert(ws[0] == w@[0]@ && ws[1] == w@[1]@);
    match par_key(&w[0]) {
        Some(k) => {
            let value = w.swap_remove(1);
            Some((k, value))
        },
        None => None,
    }
}

/// `pat` stands in `s` from index `i` on.
pub open spec fn occurs_at(s: Seq<char>, pat: Seq<char>, i: int) -> bool {
    0 <= i && i + pat.len() <= s.len() && s.subrange(i, i + pat.len()) == pat
}

/// `pat` stands somewhere in `s`.
pub open spec fn occurs(s: Seq<char>, pat: Seq<char>) -> bool {
    exists|i: int| occurs_at(s, pat, i)
}

/// Whether `pat` stands in `s` from index `i` on.
fn matches_at(s: &Vec<char>, pat: &Vec<char>, i: usize) -> (r: bool)
    ensures
        r == occurs_at(s@, pat@, i as int),
{
    if i > s.len() || pat.len() > s.len() - i {
        return false;
    }
    let n = s.len();
    let mut k: usize = 0;
    while k < pat.len()
        invariant
            n == s@.len(),
            i + pat@.len() <= s@.len(),
            k <= pat@.len(),
            s@.subrange(i as int, i + k) == pat@.subrange(0, k as int),
        decreases pat@.len() - k,
    {
        if s[i + k] != pat[k] {
            assert(s@.subrange(i as int, i + pat@.len())[k as int] == s@[i + k]);
            return false;
        }
        assert(s@.subrange(i as int, i + k + 1) =~= s@.subrange(i as int, i + k).push(s@[i + k]));
        assert(pat@.subrange(0, k + 1) =~= pat@.subrange(0, k as int).push(pat@[k as int]));
        k = k + 1;
    }
    assert(pat@ =~= pat@.subrange(0, k as int));
    true
}

/// Whether `pat` stands anywhere in `s`.
pub fn contains_chars(s: &Vec<char>, pat: &Vec<char>) -> (r: bool)
    ensures
        r == occurs(s@, pat@),
{
    let mut i: usize = 0;
    while i < s.len()
        invariant
            i <= s@.len(),
            forall|j: int| 0 <= j < i ==> !occurs_at(s@, pat@, j),
        decreases s@.len() - i,
    {
        if matches_at(s, pat, i) {
            return true;
        }
        i = i + 1;
    }
    if matches_at(s, pat, i) {
        return true;
    }
    assert forall|j: int| !occurs_at(s@, pat@, j) by {
        if 0 <= j && j <= i {
        }
    }
    false
}

/// Photon flux assigned to a pulsar read from a parameter file, by its name:
/// 5 for B1937+21, 8 for J0437-4715, 1 for any other.
pub open spec fn catalog_flux_of(name: Seq<char>) -> u64 {
    if occurs(name, seq!['1', '9', '3', '7']) {
        5
    } else if occurs(name, seq!['0', '4', '3', '7']) {
        8
    } else {
        1
    }
}

/// Photon flux assigned to a pulsar read from a parameter file, by its name.
pub fn catalog_flux(name: &Vec<char>) -> (r: u64)
    ensures
        r == catalog_flux_of(name@),
{
    if contains_chars(name, &vec!['1', '9', '3', '7']) {
        5
    } else if contains_chars(name, &vec!['0', '4', '3', '7']) {
        8
    } else {
        1
    }
}

/// Scanning `s` from the left: the `:`-separated fields completed so far and
/// the field being read.
pub open spec fn scan_fields(s: Seq<char>) -> (Seq<Seq<char>>, Seq<char>)
    decreases s.len(),
{
    if s.len() == 0 {
        (Seq::empty(), Seq::empty())
    } else {
        let (done, cur) = scan_fields(s.drop_last());
        if s.last() == ':' {
            (done.push(cur), Seq::empty())
        } else {
            (done, cur.push(s.last()))
        }
    }
}

/// The pieces of `s` between `:` separators, empty ones included: one more
/// than there are separators.
pub open spec fn colon_fields(s: Seq<char>) -> Seq<Seq<char>> {
    let (done, cur) = scan_fields(s);
    done.push(cur)
}

/// Splits a sexagesimal value such as `19:39:38.56` at its colons.
pub fn split_fields(text: &Vec<char>) -> (r: Vec<Vec<char>>)
    ensures
        char_seqs(r@) == colon_fields(text@),
{
    let mut done: Vec<Vec<char>> = Vec::new();
    let mut cur: Vec<char> = Vec::new();
    let mut i: usize = 0;
    while i < text.len()
        invariant
            i <= text@.len(),
            (char_seqs(done@), cur@) == scan_fields(text@.subrange(0, i as int)),
        decreases text@.len() - i,
    {
        let c = text[i];
        proof {
            let pre = text@.subrange(0, i as int + 1);
            assert(pre.drop_last() =~= text@.subrange(0, i as int));
            assert(pre.last() == c);
        }
        if c == ':' {
            let ghost before = char_seqs(done@);
            let ghost w = cur@;
            done.push(cur);
            assert(char_seqs(done@) =~= before.push(w));
            cur = Vec::new();
        } else {
            cur.push(c);
        }
        i = i + 1;
    }
    assert(text@.subrange(0, text@.len() as int) =~= text@);
    let ghost before = char_seqs(done@);
    let ghost w = cur@;
    done.push(cur);
    assert(char_seqs(done@) =~= before.push(w));
    done
}

} // verus!
