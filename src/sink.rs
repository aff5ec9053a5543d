//! The text sink that type names are written to.
//!
//! A sink may carry a limit on the number of characters it holds. A write
//! that would pass the limit is refused whole, and that refusal is the only
//! failure of name output.
use vstd::prelude::*;

verus! {

/// The sink refused a write.
#[derive(Clone, Copy, Debug, PartialEq, Eq)]
pub struct WriteError;

/// A growable text buffer, optionally limited in the characters it holds.
pub struct NameSink {
    text: String,
    limit: Option<usize>,
}

impl View for NameSink {
    type V = Seq<char>;

    closed spec fn view(&self) -> Seq<char> {
        self.text@
    }
}

/// Writing `piece` took the sink from `before` to `after` with outcome `r`:
/// the write succeeds exactly when the whole piece fits, a success appends
/// the piece, and a failure leaves an extension of `before` that is a prefix
/// of `before@ + piece` (nothing written is taken back).
pub open spec fn emits(
    before: NameSink,
    after: NameSink,
    piece: Seq<char>,
    r: Result<(), WriteError>,
) -> bool {
    &&& after.wf()
    &&& after.limit() == before.limit()
    &&& (r is Ok <==> before.accepts(piece.len()))
    &&& (r is Ok ==> after@ == before@ + piece)
    &&& (r is Err ==> {
        &&& before@.len() <= after@.len() <= before@.len() + piece.len()
        &&& after@ == (before@ + piece).take(after@.len() as int)
    })
}

impl NameSink {
    /// The most characters the sink may hold, if it is limited.
    pub closed spec fn limit(self) -> Option<usize> {
        self.limit
    }

    pub open spec fn wf(self) -> bool {
        match self.limit() {
            Some(n) => self@.len() <= n,
            None => true,
        }
    }

    /// `n` more characters fit in the sink.
    pub open spec fn accepts(self, n: nat) -> bool {
        match self.limit() {
            Some(m) => self@.len() + n <= m,
            None => true,
        }
    }

    /// An empty sink without a limit.
    pub fn new() -> (r: Self)
        ensures
            r@ == Seq::<char>::empty(),
            r.limit() == None::<usize>,
            r.wf(),
    {
        NameSink { text: String::new(), limit: None }
    }

    /// An empty sink that holds at most `limit` characters.
    pub fn with_limit(limit: usize) -> (r: Self)
        ensures
            r@ == Seq::<char>::empty(),
            r.limit() == Some(limit),
            r.wf(),
    {
        NameSink { text: String::new(), limit: Some(limit) }
    }

    /// The text written so far.
    pub fn as_str(&self) -> (r: &str)
        ensures
            r@ == self@,
    {
        self.text.as_str()
    }

    /// The text written so far, taken out of the sink.
    pub fn into_string(self) -> (r: String)
        ensures
            r@ == self@,
    {
        self.text
    }

    /// Appends `s` if it fits; otherwise refuses it and changes nothing.
    pub fn write_str(&mut self, s: &str) -> (r: Result<(), WriteError>)
        requires
            old(self).wf(),
        ensures
            emits(*old(self), *final(self), s@, r),
            r is Err ==> *final(self) == *old(self),
    {
        let n = s.unicode_len();
        match self.limit {
            Some(m) => {
                let used = self.text.as_str().unicode_len();
                if m - used < n {
                    assert((self@ + s@).take(self@.len() as int) =~= self@);
                    return Err(WriteError);
                }
            },
            None => {},
        }
        self.text.append(s);
        Ok(())
    }
}

/// Writing nothing succeeds and changes nothing.
pub proof fn lemma_emits_nothing(s: NameSink)
    requires
        s.wf(),
    ensures
        emits(s, s, Seq::<char>::empty(), Ok(())),
{
    assert(s@ + Seq::<char>::empty() =~= s@);
}

/// A write, whatever its outcome, only appends to the sink.
pub proof fn lemma_emits_extends(a: NameSink, b: NameSink, p: Seq<char>, r: Result<(), WriteError>)
    requires
        emits(a, b, p, r),
    ensures
        a@.is_prefix_of(b@),
{
    assert(a@ =~= b@.subrange(0, a@.len() as int));
}

/// A successful write followed by another is one write of both pieces.
pub proof fn lemma_emits_then(
    a: NameSink,
    b: NameSink,
    c: NameSink,
    p: Seq<char>,
    q: Seq<char>,
    r: Result<(), WriteError>,
)
    requires
        emits(a, b, p, Ok(())),
        emits(b, c, q, r),
    ensures
        emits(a, c, p + q, r),
{
    assert(b@ + q =~= a@ + (p + q));
}

/// After a refused write, anything further that was skipped counts as refused too.
pub proof fn lemma_emits_skip(a: NameSink, b: NameSink, p: Seq<char>, q: Seq<char>)
    requires
        emits(a, b, p, Err(WriteError)),
    ensures
        emits(a, b, p + q, Err(WriteError)),
{
    let k = b@.len() as int;
    assert((a@ + (p + q)).take(k) =~= (a@ + p).take(k));
}

} // verus!
