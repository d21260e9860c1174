//! The line framer of the control channel: bytes come in as the transport
//! delivers them, and complete CR LF terminated lines come out, however the
//! terminator was split across reads.
use vstd::prelude::*;

verus! {

/// The longest command line accepted, in bytes, without its CR LF.
pub const MAX_LINE: usize = 1024;

/// Why a line is refused.
#[derive(Clone, Copy, Debug, PartialEq, Eq)]
pub enum FrameError {
    /// Longer than `MAX_LINE` bytes.
    TooLong,
    /// Holds a byte that is not ASCII.
    NotAscii,
}

/// Collects the bytes of the control channel that do not yet form a line.
pub struct LineFramer {
    buf: Vec<u8>,
}

/// Position of the first CR LF in `b`, or `-1` when there is none.
pub open spec fn find_crlf(b: Seq<u8>) -> int
    decreases b.len(),
{
    if b.len() < 2 {
        -1
    } else if b[0] == 13 && b[1] == 10 {
        0
    } else {
        let rest = find_crlf(b.drop_first());
        if rest < 0 {
            -1
        } else {
            rest + 1
        }
    }
}

/// The characters of ASCII bytes.
pub open spec fn ascii_chars(b: Seq<u8>) -> Seq<char> {
    b.map_values(|x: u8| x as char)
}

/// Every byte is ASCII.
pub open spec fn is_ascii_bytes(b: Seq<u8>) -> bool {
    forall|i: int| 0 <= i < b.len() ==> #[trigger] b[i] < 128
}

/// What becomes of the bytes of one line: too long, not ASCII, or its characters.
pub open spec fn line_of(b: Seq<u8>) -> Result<Seq<char>, FrameError> {
    if b.len() > MAX_LINE {
        Err(FrameError::TooLong)
    } else if !is_ascii_bytes(b) {
        Err(FrameError::NotAscii)
    } else {
        Ok(ascii_chars(b))
    }
}

/// `find_crlf` finds the first CR LF.
pub proof fn lemma_find_crlf_at(b: Seq<u8>, j: int)
    requires
        0 <= j,
        j + 1 < b.len(),
        b[j] == 13 && b[j + 1] == 10,
        forall|k: int| 0 <= k < j ==> !(b[k] == 13 && #[trigger] b[k + 1] == 10),
    ensures
        find_crlf(b) == j,
    decreases j,
{
    if j > 0 {
        assert forall|k: int| 0 <= k < j - 1 implies !(b.drop_first()[k] == 13
            && #[trigger] b.drop_first()[k + 1] == 10) by {
            assert(b.drop_first()[k] == b[k + 1]);
            assert(b.drop_first()[k + 1] == b[k + 2]);
            assert(!(b[k + 1] == 13 && b[(k + 1) + 1] == 10));
        }
        let z: int = 0;
        assert(!(b[z] == 13 && b[z + 1] == 10));
        lemma_find_crlf_at(b.drop_first(), j - 1);
    }
}

/// `find_crlf` finds nothing when there is no CR LF.
pub proof fn lemma_find_crlf_none(b: Seq<u8>)
    requires
        forall|k: int| 0 <= k && k + 1 < b.len() ==> !(b[k] == 13 && #[trigger] b[k + 1] == 10),
    ensures
        find_crlf(b) == -1,
    decreases b.len(),
{
    if b.len() >= 2 {
        let z: int = 0;
        assert(!(b[z] == 13 && b[z + 1] == 10));
        assert forall|k: int| 0 <= k && k + 1 < b.drop_first().len() implies !(b.drop_first()[k]
            == 13 && #[trigger] b.drop_first()[k + 1] == 10) by {
            assert(b.drop_first()[k] == b[k + 1]);
            assert(b.drop_first()[k + 1] == b[k + 2]);
            assert(!(b[k + 1] == 13 && b[(k + 1) + 1] == 10));
        }
        lemma_find_crlf_none(b.drop_first());
    }
}

/// Relies on std::str::from_utf8: ASCII bytes are valid UTF-8, in which each
/// byte is one character of the same value.
#[verifier::external_body]
fn ascii_string(b: &[u8]) -> (r: String)
    requires
        is_ascii_bytes(b@),
    ensures
        r@ == ascii_chars(b@),
{
    match std::str::from_utf8(b) {
        Ok(s) => s.to_owned(),
        Err(_) => String::new(),
    }
}

impl View for LineFramer {
    type V = Seq<u8>;

    closed spec fn view(&self) -> Seq<u8> {
        self.buf@
    }
}

impl LineFramer {
    pub fn new() -> (r: LineFramer)
        ensures
            r@.len() == 0,
    {
        LineFramer { buf: Vec::new() }
    }

    /// Adds bytes received from the control channel.
    pub fn push_bytes(&mut self, data: &[u8])
        ensures
            final(self)@ == old(self)@ + data@,
    {
        let mut i: usize = 0;
        while i < data.len()
            invariant
                i <= data@.len(),
                self@ == old(self)@ + data@.take(i as int),
            decreases data@.len() - i,
        {
            self.buf.push(data[i]);
            assert(data@.take(i + 1) == data@.take(i as int).push(data@[i as int]));
            i = i + 1;
        }
        assert(data@.take(i as int) == data@);
    }

    /// Takes the next complete line, without its CR LF, out of what was received.
    /// With no complete line, nothing is taken unless more than `MAX_LINE + 1`
    /// bytes wait, which are then dropped as one line that is too long.
    pub fn next_line(&mut self) -> (r: Option<Result<String, FrameError>>)
        ensures
            find_crlf(old(self)@) >= 0 ==> {
                let i = find_crlf(old(self)@);
                &&& final(self)@ == old(self)@.skip(i + 2)
                &&& r matches Some(x) && match x {
                    Ok(s) => line_of(old(self)@.take(i)) == Ok::<_, FrameError>(s@),
                    Err(e) => line_of(old(self)@.take(i)) == Err::<Seq<char>, _>(e),
                }
            },
            find_crlf(old(self)@) < 0 && old(self)@.len() > MAX_LINE + 1 ==> final(self)@.len() == 0
                && r == Some(Err::<String, FrameError>(FrameError::TooLong)),
            find_crlf(old(self)@) < 0 && old(self)@.len() <= MAX_LINE + 1 ==> final(self)@ == old(
                self,
            )@ && r is None,
    {
        let n = self.buf.len();
        let mut i: usize = 0;
        let mut found = false;
        while !found && n >= 2 && i < n - 1
            invariant
                n == self.buf@.len(),
                self@ == old(self)@,
                i < n || n < 2,
                found ==> i + 1 < n && self.buf@[i as int] == 13 && self.buf@[i + 1] == 10,
                forall|k: int|
                    0 <= k < i && k + 1 < n ==> !(self.buf@[k] == 13 && #[trigger] self.buf@[k + 1]
                        == 10),
            decreases n - i, if found { 0int } else { 1int },
        {
            if self.buf[i] == 13 && self.buf[i + 1] == 10 {
                found = true;
            } else {
                i = i + 1;
            }
        }
        if !found {
            proof {
                lemma_find_crlf_none(self.buf@);
            }
            if n > MAX_LINE + 1 {
                self.buf = Vec::new();
                return Some(Err(FrameError::TooLong));
            }
            return None;
        }
        proof {
            lemma_find_crlf_at(self.buf@, i as int);
        }
        let mut line: Vec<u8> = Vec::new();
        let mut ascii = true;
        let mut k: usize = 0;
        while k < i
            invariant
                k <= i,
                i + 1 < n,
                n == self.buf@.len(),
                line@ == self.buf@.take(k as int),
                ascii == is_ascii_bytes(line@),
            decreases i - k,
        {
            let b = self.buf[k];
            assert(self.buf@.take(k + 1) == self.buf@.take(k as int).push(b));
            let ghost before = line@;
            if b >= 128 {
                ascii = false;
            }
            line.push(b);
            assert(line@[k as int] == b);
            assert(forall|m: int| 0 <= m < k ==> line@[m] == before[m]);
            k = k + 1;
        }
        let mut rest: Vec<u8> = Vec::new();
        let mut j: usize = i + 2;
        while j < n
            invariant
                i + 2 <= j <= n,
                n == self.buf@.len(),
                rest@ == self.buf@.subrange(i + 2, j as int),
            decreases n - j,
        {
            rest.push(self.buf[j]);
            assert(self.buf@.subrange(i + 2, j + 1) == self.buf@.subrange(i + 2, j as int).push(
                self.buf@[j as int],
            ));
            j = j + 1;
        }
        assert(rest@ == self.buf@.skip(i + 2));
        self.buf = rest;
        if i > MAX_LINE {
            Some(Err(FrameError::TooLong))
        } else if !ascii {
            Some(Err(FrameError::NotAscii))
        } else {
            Some(Ok(ascii_string(line.as_slice())))
        }
    }
}

} // verus!
