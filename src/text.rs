//! Text helpers: case folding, trimming and comma splitting.

use vstd::prelude::*;

verus! {

/// Code point of `c` after ASCII lower-casing.
pub open spec fn ascii_lower_code(c: char) -> u32 {
    if 65 <= (c as u32) && (c as u32) <= 90 {
        (c as u32 + 32) as u32
    } else {
        c as u32
    }
}

/// Every character of `s` is ASCII.
pub open spec fn all_ascii(s: Seq<char>) -> bool {
    forall|i: int| 0 <= i < s.len() ==> (#[trigger] s[i] as u32) < 128
}

/// `r` is `s` with each ASCII capital letter replaced by its small letter.
pub open spec fn is_ascii_lowering(s: Seq<char>, r: Seq<char>) -> bool {
    &&& r.len() == s.len()
    &&& forall|i: int| 0 <= i < s.len() ==> (#[trigger] r[i] as u32) == ascii_lower_code(s[i])
}

/// ASCII lowering of a text is unique.
pub proof fn lemma_ascii_lowering_unique(s: Seq<char>, a: Seq<char>, b: Seq<char>)
    requires
        is_ascii_lowering(s, a),
        is_ascii_lowering(s, b),
    ensures
        a == b,
{
    assert forall|i: int| 0 <= i < a.len() implies a[i] == b[i] by {
        assert(a[i] as u32 == b[i] as u32);
        vstd::utf8::char_u32_cast(a[i], a[i] as u32);
        vstd::utf8::char_u32_cast(b[i], b[i] as u32);
    }
    assert(a =~= b);
}

/// What `str::to_lowercase` returns for `s`.
pub uninterp spec fn lower_of(s: Seq<char>) -> Seq<char>;

/// Relies on `str::to_lowercase`: the result is a function of the characters,
/// and on ASCII text it lowers exactly the letters `A`..`Z`.
#[verifier::external_body]
pub(crate) fn lowercase(s: &str) -> (r: String)
    ensures
        r@ == lower_of(s@),
        all_ascii(s@) ==> is_ascii_lowering(s@, r@),
{
    s.to_lowercase()
}

/// What `str::trim` returns for `s`.
pub uninterp spec fn trimmed(s: Seq<char>) -> Seq<char>;

/// Relies on `str::trim`: the result is a function of the characters alone.
#[verifier::external_body]
pub(crate) fn trim(s: &str) -> (r: String)
    ensures
        r@ == trimmed(s@),
{
    s.trim().to_string()
}

/// The pieces of `s` between commas, in order; `s` without a comma is one piece.
pub open spec fn comma_pieces(s: Seq<char>) -> Seq<Seq<char>>
    decreases s.len(),
{
    if s.len() == 0 {
        seq![Seq::empty()]
    } else {
        let p = comma_pieces(s.drop_last());
        if s.last() == ',' {
            p.push(Seq::empty())
        } else {
            p.update(p.len() - 1, p.last().push(s.last()))
        }
    }
}

/// There is always at least one piece.
pub proof fn lemma_comma_pieces_nonempty(s: Seq<char>)
    ensures
        comma_pieces(s).len() >= 1,
    decreases s.len(),
{
    if s.len() > 0 {
        lemma_comma_pieces_nonempty(s.drop_last());
    }
}

/// Splits `s` at every comma.
pub fn split_commas(s: &str) -> (r: Vec<String>)
    ensures
        r@.map_values(|p: String| p@) == comma_pieces(s@),
{
    let n = s.unicode_len();
    let mut parts: Vec<String> = Vec::new();
    let mut start: usize = 0;
    let mut i: usize = 0;
    proof {
        assert(parts@.map_values(|p: String| p@) =~= Seq::<Seq<char>>::empty());
        assert(s@.subrange(0, 0) =~= Seq::<char>::empty());
        assert(parts@.map_values(|p: String| p@).push(s@.subrange(0, 0)) =~= seq![Seq::empty()]);
        assert(s@.take(0) =~= Seq::<char>::empty());
    }
    while i < n
        invariant
            n == s@.len(),
            start <= i <= n,
            parts@.map_values(|p: String| p@).push(s@.subrange(start as int, i as int))
                == comma_pieces(s@.take(i as int)),
        decreases n - i,
    {
        let c = s.get_char(i);
        proof {
            assert(s@.take(i + 1).drop_last() == s@.take(i as int));
            assert(s@.take(i + 1).last() == c);
            lemma_comma_pieces_nonempty(s@.take(i as int));
        }
        if c == ',' {
            let piece = s.substring_char(start, i).to_owned();
            parts.push(piece);
            start = i + 1;
            proof {
                assert(s@.subrange(start as int, i + 1) == Seq::<char>::empty());
            }
        } else {
            proof {
                assert(s@.subrange(start as int, i + 1) == s@.subrange(start as int, i as int).push(c));
            }
        }
        i = i + 1;
    }
    let last = s.substring_char(start, n).to_owned();
    parts.push(last);
    proof {
        assert(s@.take(n as int) == s@);
    }
    parts
}

/// `c` may stand in an HTTP header value: a tab, or anything but the
/// other control characters.
pub open spec fn header_char_ok(c: char) -> bool {
    c == '\t' || ((c as u32) >= 32 && (c as u32) != 127)
}

/// `s` may stand in an HTTP header value.
pub open spec fn header_value_ok(s: Seq<char>) -> bool {
    forall|i: int| 0 <= i < s.len() ==> header_char_ok(#[trigger] s[i])
}

/// Whether `s` may stand in an HTTP header value.
pub fn is_header_value(s: &str) -> (r: bool)
    ensures
        r == header_value_ok(s@),
{
    let n = s.unicode_len();
    let mut i: usize = 0;
    while i < n
        invariant
            n == s@.len(),
            i <= n,
            forall|j: int| 0 <= j < i ==> header_char_ok(#[trigger] s@[j]),
        decreases n - i,
    {
        let c = s.get_char(i);
        if !(c == '\t' || ((c as u32) >= 32 && (c as u32) != 127)) {
            return false;
        }
        i = i + 1;
    }
    true
}

} // verus!
