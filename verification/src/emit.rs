//! Verified XML writing: escaping, decimal rendering, and element
//! construction over a growing byte buffer. Every helper states exactly
//! which bytes it appends.

use crate::xml;
use vstd::prelude::*;

verus! {

use crate::xml::nm;
use vstd::utf8::encode_utf8;

/// The replacement for one byte of character data.
pub open spec fn escape_text_byte(b: u8) -> Seq<u8> {
    if b == xml::AMP {
        nm("&amp;")
    } else if b == xml::LT {
        nm("&lt;")
    } else if b == xml::GT {
        nm("&gt;")
    } else {
        seq![b]
    }
}

/// Character data with `&`, `<` and `>` replaced by entities.
pub open spec fn escape_text(bs: Seq<u8>) -> Seq<u8>
    decreases bs.len(),
{
    if bs.len() == 0 {
        Seq::empty()
    } else {
        escape_text(bs.drop_last()) + escape_text_byte(bs.last())
    }
}

/// The replacement for one byte of an attribute value.
pub open spec fn escape_attr_byte(b: u8) -> Seq<u8> {
    if b == xml::AMP {
        nm("&amp;")
    } else if b == xml::LT {
        nm("&lt;")
    } else if b == xml::GT {
        nm("&gt;")
    } else if b == xml::DQUOTE {
        nm("&quot;")
    } else if b == xml::SQUOTE {
        nm("&apos;")
    } else {
        seq![b]
    }
}

/// An attribute value with markup and quote bytes replaced by entities.
pub open spec fn escape_attr(bs: Seq<u8>) -> Seq<u8>
    decreases bs.len(),
{
    if bs.len() == 0 {
        Seq::empty()
    } else {
        escape_attr(bs.drop_last()) + escape_attr_byte(bs.last())
    }
}

/// The decimal digits of `n`, most significant first.
pub open spec fn dec_digits(n: nat) -> Seq<u8>
    decreases n,
{
    if n < 10 {
        seq![(48 + n) as u8]
    } else {
        dec_digits(n / 10) + seq![(48 + n % 10) as u8]
    }
}

/// One attribute as written: a leading space, the name, `="`, the already
/// rendered value bytes, and a closing quote.
pub open spec fn attr_unescaped(name: &str, value: Seq<u8>) -> Seq<u8> {
    seq![32u8] + nm(name) + seq![xml::EQUALS, xml::DQUOTE] + value + seq![xml::DQUOTE]
}

/// One attribute holding escaped text.
pub open spec fn attr_str(name: &str, value: Seq<char>) -> Seq<u8> {
    attr_unescaped(name, escape_attr(encode_utf8(value)))
}

/// One attribute holding a decimal number.
pub open spec fn attr_num(name: &str, n: nat) -> Seq<u8> {
    attr_unescaped(name, dec_digits(n))
}

/// An opening tag with the given rendered attribute bytes.
pub open spec fn start_tag(name: &str, attrs: Seq<u8>) -> Seq<u8> {
    seq![xml::LT] + nm(name) + attrs + seq![xml::GT]
}

/// A self-closing tag.
pub open spec fn empty_tag(name: &str, attrs: Seq<u8>) -> Seq<u8> {
    seq![xml::LT] + nm(name) + attrs + seq![xml::SLASH, xml::GT]
}

/// A closing tag.
pub open spec fn end_tag(name: &str) -> Seq<u8> {
    seq![xml::LT, xml::SLASH] + nm(name) + seq![xml::GT]
}

/// A whole element: self-closing when it has no children, full tags
/// otherwise.
pub open spec fn elem(name: &str, attrs: Seq<u8>, children: Seq<u8>) -> Seq<u8> {
    if children.len() == 0 {
        empty_tag(name, attrs)
    } else {
        start_tag(name, attrs) + children + end_tag(name)
    }
}

/// An element holding only escaped text.
pub open spec fn text_elem(name: &str, text: Seq<char>) -> Seq<u8> {
    elem(name, Seq::empty(), escape_text(encode_utf8(text)))
}

/// Appends the bytes of a literal string.
pub fn push_lit(out: &mut Vec<u8>, s: &str)
    ensures
        final(out)@ == old(out)@ + nm(s),
{
    out.extend_from_slice(s.as_bytes());
}

/// Appends character data, escaping `&`, `<` and `>`.
pub fn push_text_escaped(out: &mut Vec<u8>, s: &str)
    ensures
        final(out)@ == old(out)@ + escape_text(encode_utf8(s@)),
{
    let b: &[u8] = s.as_bytes();
    let n: usize = b.len();
    let mut k: usize = 0;
    while k < n
        invariant
            n == b@.len(),
            0 <= k <= n,
            out@ == old(out)@ + escape_text(b@.subrange(0, k as int)),
        decreases n - k,
    {
        let c = b[k];
        if c == xml::AMP {
            push_lit(out, "&amp;");
        } else if c == xml::LT {
            push_lit(out, "&lt;");
        } else if c == xml::GT {
            push_lit(out, "&gt;");
        } else {
            out.push(c);
        }
        proof {
            assert(b@.subrange(0, k + 1).drop_last() =~= b@.subrange(0, k as int));
            assert(b@.subrange(0, k + 1).last() == b@[k as int]);
            assert(out@ =~= old(out)@ + escape_text(b@.subrange(0, k + 1)));
        }
        k = k + 1;
    }
    proof {
        assert(b@.subrange(0, n as int) =~= b@);
        assert(b@ == encode_utf8(s@));
    }
}

/// Appends an attribute value, escaping markup and quote bytes.
fn push_attr_escaped(out: &mut Vec<u8>, s: &str)
    ensures
        final(out)@ == old(out)@ + escape_attr(encode_utf8(s@)),
{
    let b: &[u8] = s.as_bytes();
    let n: usize = b.len();
    let mut k: usize = 0;
    while k < n
        invariant
            n == b@.len(),
            0 <= k <= n,
            out@ == old(out)@ + escape_attr(b@.subrange(0, k as int)),
        decreases n - k,
    {
        let c = b[k];
        if c == xml::AMP {
            push_lit(out, "&amp;");
        } else if c == xml::LT {
            push_lit(out, "&lt;");
        } else if c == xml::GT {
            push_lit(out, "&gt;");
        } else if c == xml::DQUOTE {
            push_lit(out, "&quot;");
        } else if c == xml::SQUOTE {
            push_lit(out, "&apos;");
        } else {
            out.push(c);
        }
        proof {
            assert(b@.subrange(0, k + 1).drop_last() =~= b@.subrange(0, k as int));
            assert(b@.subrange(0, k + 1).last() == b@[k as int]);
            assert(out@ =~= old(out)@ + escape_attr(b@.subrange(0, k + 1)));
        }
        k = k + 1;
    }
    proof {
        assert(b@.subrange(0, n as int) =~= b@);
        assert(b@ == encode_utf8(s@));
    }
}

/// Appends the decimal digits of `v`.
pub fn push_u64(out: &mut Vec<u8>, v: u64)
    ensures
        final(out)@ == old(out)@ + dec_digits(v as nat),
    decreases v,
{
    if v >= 10 {
        push_u64(out, v / 10);
    }
    out.push((48 + (v % 10)) as u8);
    proof {
        assert(final(out)@ =~= old(out)@ + dec_digits(v as nat));
    }
}

/// Appends one attribute with an escaped text value.
pub fn push_attr_str(out: &mut Vec<u8>, name: &str, value: &str)
    ensures
        final(out)@ == old(out)@ + attr_str(name, value@),
{
    out.push(32);
    push_lit(out, name);
    out.push(xml::EQUALS);
    out.push(xml::DQUOTE);
    push_attr_escaped(out, value);
    out.push(xml::DQUOTE);
    proof {
        assert(final(out)@ =~= old(out)@ + attr_str(name, value@));
    }
}

/// Appends one attribute with a decimal value.
pub fn push_attr_u64(out: &mut Vec<u8>, name: &str, v: u64)
    ensures
        final(out)@ == old(out)@ + attr_num(name, v as nat),
{
    out.push(32);
    push_lit(out, name);
    out.push(xml::EQUALS);
    out.push(xml::DQUOTE);
    push_u64(out, v);
    out.push(xml::DQUOTE);
    proof {
        assert(final(out)@ =~= old(out)@ + attr_num(name, v as nat));
    }
}

/// Appends a whole element built from rendered attribute and child bytes:
/// self-closing when `children` is empty.
pub fn push_elem(out: &mut Vec<u8>, name: &str, attrs: Vec<u8>, children: Vec<u8>)
    ensures
        final(out)@ == old(out)@ + elem(name, attrs@, children@),
{
    let ghost a0 = attrs@;
    let ghost c0 = children@;
    let mut attrs = attrs;
    let mut children = children;
    out.push(xml::LT);
    push_lit(out, name);
    out.append(&mut attrs);
    if children.len() == 0 {
        out.push(xml::SLASH);
        out.push(xml::GT);
        proof {
            assert(out@ =~= old(out)@ + elem(name, a0, c0));
        }
    } else {
        out.push(xml::GT);
        out.append(&mut children);
        out.push(xml::LT);
        out.push(xml::SLASH);
        push_lit(out, name);
        out.push(xml::GT);
        proof {
            assert(out@ =~= old(out)@ + elem(name, a0, c0));
        }
    }
}

/// Appends an element holding only escaped text.
pub fn push_text_elem(out: &mut Vec<u8>, name: &str, text: &str)
    ensures
        final(out)@ == old(out)@ + text_elem(name, text@),
{
    let mut children: Vec<u8> = Vec::new();
    push_text_escaped(&mut children, text);
    push_elem(out, name, Vec::new(), children);
    proof {
        assert(final(out)@ =~= old(out)@ + text_elem(name, text@));
    }
}

/// The decimal digits of `n`, as characters.
pub open spec fn spec_num_chars(n: nat) -> Seq<char>
    decreases n,
{
    if n < 10 {
        seq![((48 + n) as u8) as char]
    } else {
        spec_num_chars(n / 10) + seq![((48 + n % 10) as u8) as char]
    }
}

/// Encoding one appended character appends that character's encoding.
pub proof fn lemma_encode_snoc(a: Seq<char>, c: char)
    ensures
        encode_utf8(a + seq![c]) == encode_utf8(a) + vstd::utf8::encode_scalar(c as u32),
    decreases a.len(),
{
    let s = a + seq![c];
    assert(encode_utf8(Seq::<char>::empty()) =~= Seq::<u8>::empty());
    if a.len() == 0 {
        assert(s.drop_first() =~= Seq::<char>::empty());
        assert(s[0] == c);
        assert(encode_utf8(s) == vstd::utf8::encode_scalar(c as u32) + encode_utf8(
            Seq::<char>::empty(),
        ));
        assert(encode_utf8(s) =~= encode_utf8(a) + vstd::utf8::encode_scalar(c as u32));
    } else {
        assert(s[0] == a[0]);
        assert(s.drop_first() =~= a.drop_first() + seq![c]);
        lemma_encode_snoc(a.drop_first(), c);
        assert(encode_utf8(s) == vstd::utf8::encode_scalar(a[0] as u32) + encode_utf8(
            s.drop_first(),
        ));
        assert(encode_utf8(s) =~= encode_utf8(a) + vstd::utf8::encode_scalar(c as u32));
    }
}

/// An ASCII byte encodes as itself.
pub proof fn lemma_encode_ascii_byte(b: u8)
    requires
        b < 128,
    ensures
        vstd::utf8::encode_scalar((b as char) as u32) == seq![b],
{
    let v: u32 = (b as char) as u32;
    assert(v == b as u32);
    assert(v < 0x80);
    assert((v & 0x7F) == v) by (bit_vector)
        requires
            v < 0x80,
    ;
    assert(vstd::utf8::encode_scalar(v) =~= seq![b]);
}

/// Digits escape to themselves, so the rendered text of a number holds
/// exactly its decimal digit bytes.
pub proof fn lemma_num_text(n: nat)
    ensures
        escape_text(encode_utf8(spec_num_chars(n))) == dec_digits(n),
    decreases n,
{
    if n < 10 {
        let b: u8 = (48 + n) as u8;
        let c: char = b as char;
        assert(spec_num_chars(n) =~= Seq::<char>::empty() + seq![c]);
        lemma_encode_snoc(Seq::<char>::empty(), c);
        lemma_encode_ascii_byte(b);
        assert(encode_utf8(spec_num_chars(n)) =~= seq![b]);
        assert(seq![b].drop_last() =~= Seq::<u8>::empty());
        assert(escape_text(Seq::<u8>::empty()) =~= Seq::<u8>::empty());
        assert(escape_text(seq![b]) == escape_text(seq![b].drop_last()) + escape_text_byte(b));
        assert(escape_text(seq![b]) =~= seq![b]);
    } else {
        let b: u8 = (48 + n % 10) as u8;
        let c: char = b as char;
        lemma_num_text(n / 10);
        lemma_encode_snoc(spec_num_chars(n / 10), c);
        lemma_encode_ascii_byte(b);
        let e = encode_utf8(spec_num_chars(n));
        assert(e == encode_utf8(spec_num_chars(n / 10)) + seq![b]);
        assert(e.drop_last() =~= encode_utf8(spec_num_chars(n / 10)));
        assert(e.last() == b);
        assert(escape_text(e) =~= dec_digits(n));
    }
}

/// Appends an element holding the decimal digits of `v`.
pub fn push_num_elem(out: &mut Vec<u8>, name: &str, v: u64)
    ensures
        final(out)@ == old(out)@ + text_elem(name, spec_num_chars(v as nat)),
{
    let mut digits: Vec<u8> = Vec::new();
    push_u64(&mut digits, v);
    proof {
        lemma_num_text(v as nat);
        assert(digits@ == escape_text(encode_utf8(spec_num_chars(v as nat))));
    }
    push_elem(out, name, Vec::new(), digits);
    proof {
        assert(final(out)@ =~= old(out)@ + text_elem(name, spec_num_chars(v as nat)));
    }
}

} // verus!
