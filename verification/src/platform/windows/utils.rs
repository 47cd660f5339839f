use vstd::prelude::*;

verus! {

/// The UTF-16 code units of a character: one unit below `0x10000`, a
/// surrogate pair above.
pub open spec fn utf16_units(c: char) -> Seq<u16> {
    let v = c as u32 as int;
    if v < 0x10000 {
        seq![v as u16]
    } else {
        let w = v - 0x10000;
        seq![(0xd800 + w / 1024) as u16, (0xdc00 + w % 1024) as u16]
    }
}

/// The UTF-16 encoding of a text.
pub open spec fn utf16_encode(s: Seq<char>) -> Seq<u16>
    decreases s.len(),
{
    if s.len() == 0 {
        Seq::empty()
    } else {
        utf16_encode(s.drop_last()) + utf16_units(s.last())
    }
}

/// Appends the UTF-16 code units of `c`.
fn push_utf16_units(out: &mut Vec<u16>, c: char)
    ensures
        final(out)@ == old(out)@ + utf16_units(c),
{
    let v = c as u32;
    if v < 0x10000 {
        out.push(v as u16);
        assert(final(out)@ =~= old(out)@ + utf16_units(c));
    } else {
        let w = v - 0x10000;
        let high = (0xd800 + w / 1024) as u16;
        let low = (0xdc00 + w % 1024) as u16;
        out.push(high);
        out.push(low);
        assert(final(out)@ =~= old(out)@ + utf16_units(c));
    }
}

/// The UTF-16 encoding of a text.
pub fn encode_wide(s: &str) -> (r: Vec<u16>)
    ensures
        r@ == utf16_encode(s@),
{
    let mut out: Vec<u16> = Vec::new();
    let ghost text = s@;
    proof {
        broadcast use vstd::string::axiom_spec_iter;
    }
    for c in it: s.chars()
        invariant
            it.seq() == text,
            out@ == utf16_encode(text.take(it.index() as int)),
    {
        proof {
            assert(text.take(it.index() + 1).drop_last() =~= text.take(it.index() as int));
        }
        push_utf16_units(&mut out, c);
    }
    proof {
        assert(text.take(text.len() as int) =~= text);
    }
    out
}

/// Text that can be encoded as UTF-16 for the system's wide-character
/// functions.
pub trait ToWide {
    /// The characters of the text.
    spec fn wide_text(&self) -> Seq<char>;

    /// The UTF-16 encoding of the text.
    fn to_wide(&self) -> (r: Vec<u16>)
        ensures
            r@ == utf16_encode(self.wide_text()),
    ;

    /// The UTF-16 encoding of the text followed by a terminating 0.
    fn to_wide_null(&self) -> (r: Vec<u16>)
        ensures
            r@ == utf16_encode(self.wide_text()).push(0),
    ;
}

impl ToWide for str {
    open spec fn wide_text(&self) -> Seq<char> {
        self@
    }

    fn to_wide(&self) -> (r: Vec<u16>) {
        encode_wide(self)
    }

    fn to_wide_null(&self) -> (r: Vec<u16>) {
        let mut r = encode_wide(self);
        r.push(0);
        r
    }
}

impl ToWide for String {
    open spec fn wide_text(&self) -> Seq<char> {
        self@
    }

    fn to_wide(&self) -> (r: Vec<u16>) {
        encode_wide(self.as_str())
    }

    fn to_wide_null(&self) -> (r: Vec<u16>) {
        let mut r = encode_wide(self.as_str());
        r.push(0);
        r
    }
}

/// A text holds no more characters than its UTF-16 encoding holds units,
/// and at most half as many.
pub proof fn lemma_utf16_length(s: Seq<char>)
    ensures
        s.len() <= utf16_encode(s).len() <= 2 * s.len(),
    decreases s.len(),
{
    if s.len() > 0 {
        lemma_utf16_length(s.drop_last());
    }
}

/// The encoding of a text is the encodings of its parts, one after the other.
pub proof fn lemma_utf16_concat(a: Seq<char>, b: Seq<char>)
    ensures
        utf16_encode(a + b) == utf16_encode(a) + utf16_encode(b),
    decreases b.len(),
{
    if b.len() == 0 {
        assert(a + b =~= a);
        assert(utf16_encode(a) + utf16_encode(b) =~= utf16_encode(a));
    } else {
        lemma_utf16_concat(a, b.drop_last());
        assert((a + b).drop_last() =~= a + b.drop_last());
        assert(utf16_encode(a) + (utf16_encode(b.drop_last()) + utf16_units(b.last())) =~= (
        utf16_encode(a) + utf16_encode(b.drop_last())) + utf16_units(b.last()));
    }
}

/// Characters below `0x10000` encode as themselves, one unit each.
pub proof fn lemma_utf16_basic_plane(s: Seq<char>)
    requires
        forall|i: int| 0 <= i < s.len() ==> (#[trigger] s[i] as u32) < 0x10000,
    ensures
        utf16_encode(s).len() == s.len(),
        forall|i: int| 0 <= i < s.len() ==> #[trigger] utf16_encode(s)[i] as u32 == s[i] as u32,
    decreases s.len(),
{
    if s.len() > 0 {
        let p = s.drop_last();
        assert forall|i: int| 0 <= i < p.len() implies (#[trigger] p[i] as u32) < 0x10000 by {
            assert(p[i] == s[i]);
        }
        lemma_utf16_basic_plane(p);
        let e = utf16_encode(s);
        let u = utf16_units(s.last());
        assert(e == utf16_encode(p) + u);
        let v = s.last() as u32 as int;
        assert((s[s.len() - 1] as u32) < 0x10000);
        assert(u == seq![v as u16]);
        assert(u.len() == 1);
        assert(u[0] as u32 == v);
        assert forall|i: int| 0 <= i < s.len() implies #[trigger] e[i] as u32 == s[i] as u32 by {
            if i < p.len() {
                assert(e[i] == utf16_encode(p)[i]);
                assert(p[i] == s[i]);
            } else {
                assert(i == p.len());
                assert(e[i] == u[0]);
            }
        }
    }
}

/// What reading a window's long value returns, given the value read and the
/// system's last error (cleared before the read): a nonzero value, or zero
/// with no error, is the value; zero with an error is that error.
pub fn window_long_ptr_result(value: isize, last_error: u32) -> (r: Result<isize, u32>)
    ensures
        r == if value != 0 || last_error == 0 {
            Ok::<isize, u32>(value)
        } else {
            Err::<isize, u32>(last_error)
        },
{
    if value == 0 {
        if last_error == 0 {
            Ok(0)
        } else {
            Err(last_error)
        }
    } else {
        Ok(value)
    }
}

} // verus!
