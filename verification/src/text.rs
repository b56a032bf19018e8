//! Text helpers: the order in which targets are kept, and string building.

use vstd::prelude::*;
use vstd::string::StringExecFns;
use vstd::utf8::*;

verus! {

/// How two texts relate in the order of their UTF-8 bytes.
#[derive(Clone, Copy, Debug, PartialEq, Eq, Structural)]
pub enum Rank {
    /// The first text comes before the second.
    Before,
    /// Both texts are the same.
    Same,
    /// The first text comes after the second.
    After,
}

/// Strict lexicographic order on byte sequences: a proper prefix comes first,
/// otherwise the first differing byte decides.
pub open spec fn bytes_lt(a: Seq<u8>, b: Seq<u8>) -> bool
    decreases a.len(),
{
    if b.len() == 0 {
        false
    } else if a.len() == 0 {
        true
    } else if a[0] != b[0] {
        a[0] < b[0]
    } else {
        bytes_lt(a.drop_first(), b.drop_first())
    }
}

/// Strict order on texts: the lexicographic order of their UTF-8 encodings.
pub open spec fn text_lt(a: Seq<char>, b: Seq<char>) -> bool {
    bytes_lt(encode_utf8(a), encode_utf8(b))
}

/// No byte sequence comes before itself.
pub proof fn lemma_bytes_lt_irreflexive(a: Seq<u8>)
    ensures
        !bytes_lt(a, a),
    decreases a.len(),
{
    if a.len() > 0 {
        lemma_bytes_lt_irreflexive(a.drop_first());
    }
}

/// The byte order is transitive.
pub proof fn lemma_bytes_lt_transitive(a: Seq<u8>, b: Seq<u8>, c: Seq<u8>)
    requires
        bytes_lt(a, b),
        bytes_lt(b, c),
    ensures
        bytes_lt(a, c),
    decreases a.len(),
{
    if a.len() > 0 && a[0] == b[0] && b[0] == c[0] {
        lemma_bytes_lt_transitive(a.drop_first(), b.drop_first(), c.drop_first());
    }
}

/// Any two byte sequences are equal or ordered one way or the other.
pub proof fn lemma_bytes_lt_total(a: Seq<u8>, b: Seq<u8>)
    ensures
        a == b || bytes_lt(a, b) || bytes_lt(b, a),
    decreases a.len(),
{
    if a.len() > 0 && b.len() > 0 && a[0] == b[0] {
        lemma_bytes_lt_total(a.drop_first(), b.drop_first());
        if a.drop_first() == b.drop_first() {
            assert(a =~= seq![a[0]] + a.drop_first());
            assert(b =~= seq![b[0]] + b.drop_first());
        }
    } else if a.len() == 0 && b.len() == 0 {
        assert(a =~= b);
    }
}

/// Skipping a common prefix does not change how two byte sequences are ordered.
pub proof fn lemma_bytes_lt_skip(a: Seq<u8>, b: Seq<u8>, n: int)
    requires
        0 <= n <= a.len(),
        n <= b.len(),
        a.subrange(0, n) == b.subrange(0, n),
    ensures
        bytes_lt(a, b) == bytes_lt(a.skip(n), b.skip(n)),
    decreases n,
{
    if n > 0 {
        assert(a[0] == a.subrange(0, n)[0]);
        assert(b[0] == b.subrange(0, n)[0]);
        assert(a.drop_first().subrange(0, n - 1) =~= a.subrange(0, n).drop_first());
        assert(b.drop_first().subrange(0, n - 1) =~= b.subrange(0, n).drop_first());
        lemma_bytes_lt_skip(a.drop_first(), b.drop_first(), n - 1);
        assert(a.drop_first().skip(n - 1) =~= a.skip(n));
        assert(b.drop_first().skip(n - 1) =~= b.skip(n));
    } else {
        assert(a.skip(0) =~= a);
        assert(b.skip(0) =~= b);
    }
}

/// The text order is a strict total order: irreflexive, asymmetric and total.
pub proof fn lemma_text_lt_strict(a: Seq<char>, b: Seq<char>)
    ensures
        !text_lt(a, a),
        !(text_lt(a, b) && text_lt(b, a)),
        a == b || text_lt(a, b) || text_lt(b, a),
{
    let x = encode_utf8(a);
    let y = encode_utf8(b);
    lemma_bytes_lt_irreflexive(x);
    if bytes_lt(x, y) && bytes_lt(y, x) {
        lemma_bytes_lt_transitive(x, y, x);
    }
    lemma_bytes_lt_total(x, y);
    if x == y {
        encode_utf8_decode_utf8(a);
        encode_utf8_decode_utf8(b);
    }
}

/// The text order is transitive.
pub proof fn lemma_text_lt_transitive(a: Seq<char>, b: Seq<char>, c: Seq<char>)
    requires
        text_lt(a, b),
        text_lt(b, c),
    ensures
        text_lt(a, c),
{
    lemma_bytes_lt_transitive(encode_utf8(a), encode_utf8(b), encode_utf8(c));
}

/// What `rank` returns for two texts.
pub open spec fn spec_rank(a: Seq<char>, b: Seq<char>) -> Rank {
    if a == b {
        Rank::Same
    } else if text_lt(a, b) {
        Rank::Before
    } else {
        Rank::After
    }
}

/// Compares two texts by their UTF-8 bytes.
pub fn rank(a: &str, b: &str) -> (r: Rank)
    ensures
        r == spec_rank(a@, b@),
        r == Rank::Before <==> text_lt(a@, b@),
        r == Rank::After <==> text_lt(b@, a@),
        r == Rank::Same <==> a@ == b@,
{
    let x = a.as_bytes();
    let y = b.as_bytes();
    proof {
        lemma_text_lt_strict(a@, b@);
    }
    let mut i: usize = 0;
    while i < x.len() && i < y.len()
        invariant
            i <= x.len(),
            i <= y.len(),
            x@ == encode_utf8(a@),
            y@ == encode_utf8(b@),
            x@.subrange(0, i as int) == y@.subrange(0, i as int),
        decreases x.len() - i,
    {
        if x[i] != y[i] {
            proof {
                lemma_bytes_lt_skip(x@, y@, i as int);
                lemma_bytes_lt_skip(y@, x@, i as int);
            }
            if x[i] < y[i] {
                return Rank::Before;
            } else {
                return Rank::After;
            }
        }
        proof {
            assert(x@.subrange(0, i + 1) =~= x@.subrange(0, i as int).push(x@[i as int]));
            assert(y@.subrange(0, i + 1) =~= y@.subrange(0, i as int).push(y@[i as int]));
        }
        i = i + 1;
    }
    proof {
        lemma_bytes_lt_skip(x@, y@, i as int);
        lemma_bytes_lt_skip(y@, x@, i as int);
    }
    if i < y.len() {
        Rank::Before
    } else if i < x.len() {
        Rank::After
    } else {
        proof {
            assert(x@ =~= x@.subrange(0, i as int));
            assert(y@ =~= y@.subrange(0, i as int));
            encode_utf8_decode_utf8(a@);
            encode_utf8_decode_utf8(b@);
        }
        Rank::Same
    }
}

/// The text of one decimal digit.
pub open spec fn spec_digit(d: nat) -> Seq<char> {
    if d == 0 {
        "0"@
    } else if d == 1 {
        "1"@
    } else if d == 2 {
        "2"@
    } else if d == 3 {
        "3"@
    } else if d == 4 {
        "4"@
    } else if d == 5 {
        "5"@
    } else if d == 6 {
        "6"@
    } else if d == 7 {
        "7"@
    } else if d == 8 {
        "8"@
    } else {
        "9"@
    }
}

/// The decimal numeral of a number, without leading zeros.
pub open spec fn spec_decimal(n: nat) -> Seq<char>
    decreases n,
{
    if n < 10 {
        spec_digit(n)
    } else {
        spec_decimal(n / 10) + spec_digit(n % 10)
    }
}

/// The text of one decimal digit.
fn digit(d: usize) -> (text: &'static str)
    requires
        d < 10,
    ensures
        text@ == spec_digit(d as nat),
{
    if d == 0 {
        "0"
    } else if d == 1 {
        "1"
    } else if d == 2 {
        "2"
    } else if d == 3 {
        "3"
    } else if d == 4 {
        "4"
    } else if d == 5 {
        "5"
    } else if d == 6 {
        "6"
    } else if d == 7 {
        "7"
    } else if d == 8 {
        "8"
    } else {
        "9"
    }
}

/// Writes a number as a decimal numeral.
pub fn decimal(n: usize) -> (text: String)
    ensures
        text@ == spec_decimal(n as nat),
    decreases n,
{
    if n < 10 {
        digit(n).to_owned()
    } else {
        let mut text = decimal(n / 10);
        text.append(digit(n % 10));
        text
    }
}

/// The views of a sequence of strings.
pub open spec fn lines_of(items: Seq<String>) -> Seq<Seq<char>> {
    Seq::new(items.len(), |i: int| items[i]@)
}

/// A heading followed by its items, each on a line of its own behind `lead`.
pub open spec fn spec_listing(head: Seq<char>, lead: Seq<char>, items: Seq<Seq<char>>) -> Seq<char>
    decreases items.len(),
{
    if items.len() == 0 {
        head
    } else {
        spec_listing(head, lead, items.drop_last()) + "\n"@ + lead + items.last()
    }
}

/// Writes a heading followed by its items, each on a line of its own behind `lead`.
pub fn listing(head: &str, lead: &str, items: &Vec<String>) -> (text: String)
    ensures
        text@ == spec_listing(head@, lead@, lines_of(items@)),
{
    let mut text = head.to_owned();
    let mut i: usize = 0;
    assert(lines_of(items@).subrange(0, 0) =~= Seq::<Seq<char>>::empty());
    while i < items.len()
        invariant
            i <= items.len(),
            text@ == spec_listing(head@, lead@, lines_of(items@).subrange(0, i as int)),
        decreases items.len() - i,
    {
        proof {
            assert(lines_of(items@).subrange(0, i + 1).drop_last() =~= lines_of(items@).subrange(
                0,
                i as int,
            ));
        }
        text.append("\n");
        text.append(lead);
        text.append(items[i].as_str());
        i = i + 1;
    }
    assert(lines_of(items@).subrange(0, i as int) =~= lines_of(items@));
    text
}

/// Two texts, one after the other.
pub fn chain(first: &str, second: &str) -> (text: String)
    ensures
        text@ == first@ + second@,
{
    let mut text = first.to_owned();
    text.append(second);
    text
}

/// No lines at all.
pub fn no_lines() -> (lines: Vec<String>)
    ensures
        lines_of(lines@) == Seq::<Seq<char>>::empty(),
{
    let lines: Vec<String> = Vec::new();
    assert(lines_of(lines@) =~= Seq::<Seq<char>>::empty());
    lines
}

/// A single line.
pub fn one_line(line: &str) -> (lines: Vec<String>)
    ensures
        lines_of(lines@) == seq![line@],
{
    let mut lines: Vec<String> = Vec::new();
    lines.push(line.to_owned());
    assert(lines_of(lines@) =~= seq![line@]);
    lines
}

/// A line before other lines.
pub fn line_before(line: &str, others: Vec<String>) -> (lines: Vec<String>)
    ensures
        lines_of(lines@) == seq![line@] + lines_of(others@),
{
    let mut lines: Vec<String> = Vec::new();
    lines.push(line.to_owned());
    let mut i: usize = 0;
    assert(lines_of(lines@) =~= seq![line@] + lines_of(others@).subrange(0, 0));
    while i < others.len()
        invariant
            i <= others.len(),
            lines_of(lines@) == seq![line@] + lines_of(others@).subrange(0, i as int),
        decreases others.len() - i,
    {
        let ghost before = lines@;
        lines.push(others[i].clone());
        i = i + 1;
        assert(lines_of(lines@) =~= lines_of(before).push(others@[i - 1]@));
        assert(lines_of(lines@) =~= seq![line@] + lines_of(others@).subrange(0, i as int));
    }
    assert(lines_of(others@).subrange(0, i as int) =~= lines_of(others@));
    lines
}

/// A copy of some lines.
pub fn copy_lines(lines: &Vec<String>) -> (copy: Vec<String>)
    ensures
        lines_of(copy@) == lines_of(lines@),
{
    let mut copy: Vec<String> = Vec::new();
    let mut i: usize = 0;
    assert(lines_of(copy@) =~= lines_of(lines@).subrange(0, 0));
    while i < lines.len()
        invariant
            i <= lines.len(),
            lines_of(copy@) == lines_of(lines@).subrange(0, i as int),
        decreases lines.len() - i,
    {
        let ghost before = copy@;
        copy.push(lines[i].clone());
        i = i + 1;
        assert(lines_of(copy@) =~= lines_of(before).push(lines@[i - 1]@));
        assert(lines_of(copy@) =~= lines_of(lines@).subrange(0, i as int));
    }
    assert(lines_of(lines@).subrange(0, i as int) =~= lines_of(lines@));
    copy
}

/// Adds a line to some lines.
pub fn push_line(lines: &mut Vec<String>, line: &str)
    ensures
        lines_of(final(lines)@) == lines_of(old(lines)@).push(line@),
{
    lines.push(line.to_owned());
    assert(lines_of(lines@) =~= lines_of(old(lines)@).push(line@));
}

} // verus!
