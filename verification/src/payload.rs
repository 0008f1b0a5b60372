//! Reading a request body chunk by chunk under a size limit, and the answers
//! to bodies that are too large or not valid JSON.
use vstd::prelude::*;

verus! {

/// The largest body, in bytes, that is read into memory: 256 KiB.
pub const MAX_SIZE: usize = 262_144;

/// The body of a request as it is read in, never larger than `MAX_SIZE`.
#[derive(Debug)]
pub struct BodyBuffer {
    body: Vec<u8>,
}

/// Why reading a body stopped.
#[derive(Debug, Clone, Copy, PartialEq, Eq, Structural)]
pub enum PayloadError {
    /// The body grew past `MAX_SIZE`.
    Overflow,
    /// The body was not the JSON that was expected.
    JsonDecodeFailed,
}

impl PayloadError {
    /// Both errors are answered with 400 (Bad Request).
    pub fn status_code(&self) -> (r: u16)
        ensures
            r == 400,
    {
        400
    }

    /// The text the error is answered with.
    pub fn message(&self) -> (r: &'static str)
        ensures
            *self == PayloadError::Overflow ==> r@ == "overflow"@,
            *self == PayloadError::JsonDecodeFailed ==> r@ == "Json Decode Failed"@,
    {
        match self {
            PayloadError::Overflow => "overflow",
            PayloadError::JsonDecodeFailed => "Json Decode Failed",
        }
    }
}

impl View for BodyBuffer {
    type V = Seq<u8>;

    closed spec fn view(&self) -> Seq<u8> {
        self.body@
    }
}

impl BodyBuffer {
    /// The body never exceeds the limit.
    #[verifier::type_invariant]
    closed spec fn within_limit(&self) -> bool {
        self.body@.len() <= MAX_SIZE
    }

    /// An empty body.
    pub fn new() -> (r: BodyBuffer)
        ensures
            r@ == Seq::<u8>::empty(),
    {
        BodyBuffer { body: Vec::new() }
    }

    /// The body read so far.
    pub fn as_slice(&self) -> (r: &[u8])
        ensures
            r@ == self@,
    {
        self.body.as_slice()
    }

    /// The size of the body read so far, which is at most `MAX_SIZE`.
    pub fn len(&self) -> (r: usize)
        ensures
            r == self@.len(),
            r <= MAX_SIZE,
    {
        proof {
            use_type_invariant(self);
        }
        self.body.len()
    }

    /// Appends a chunk, unless the body would then exceed `MAX_SIZE`; in that
    /// case the body is left as it was and `Overflow` is returned.
    pub fn extend(&mut self, chunk: &[u8]) -> (r: Result<(), PayloadError>)
        ensures
            old(self)@.len() + chunk@.len() > MAX_SIZE ==> r == Err::<(), PayloadError>(PayloadError::Overflow)
                && final(self)@ == old(self)@,
            old(self)@.len() + chunk@.len() <= MAX_SIZE ==> r is Ok && final(self)@ == old(self)@ + chunk@,
    {
        proof {
            use_type_invariant(&*self);
        }
        if chunk.len() > MAX_SIZE - self.body.len() {
            return Err(PayloadError::Overflow);
        }
        let mut body: Vec<u8> = Vec::new();
        std::mem::swap(&mut body, &mut self.body);
        let ghost start = body@;
        let mut i: usize = 0;
        while i < chunk.len()
            invariant
                i <= chunk@.len(),
                start.len() + chunk@.len() <= MAX_SIZE,
                body@ == start + chunk@.subrange(0, i as int),
            decreases chunk@.len() - i,
        {
            body.push(chunk[i]);
            i = i + 1;
            assert(body@ =~= start + chunk@.subrange(0, i as int));
        }
        assert(chunk@.subrange(0, chunk@.len() as int) =~= chunk@);
        self.body = body;
        Ok(())
    }
}

/// The concatenation of a list of chunks.
pub open spec fn concat(chunks: Seq<Seq<u8>>) -> Seq<u8>
    decreases chunks.len(),
{
    if chunks.len() == 0 {
        Seq::empty()
    } else {
        concat(chunks.drop_last()) + chunks.last()
    }
}

/// Reads a body from its chunks in order: the concatenation of the chunks
/// when it stays within `MAX_SIZE`, `Overflow` otherwise.
pub fn read_body(chunks: &Vec<Vec<u8>>) -> (r: Result<BodyBuffer, PayloadError>)
    ensures
        match r {
            Ok(b) => b@ == concat(chunks@.map_values(|c: Vec<u8>| c@)) && b@.len() <= MAX_SIZE,
            Err(e) => e == PayloadError::Overflow && concat(chunks@.map_values(|c: Vec<u8>| c@)).len() > MAX_SIZE,
        },
{
    let ghost views = chunks@.map_values(|c: Vec<u8>| c@);
    let mut buffer = BodyBuffer::new();
    let mut i: usize = 0;
    while i < chunks.len()
        invariant
            i <= chunks.len(),
            views == chunks@.map_values(|c: Vec<u8>| c@),
            buffer@ == concat(views.take(i as int)),
            buffer@.len() <= MAX_SIZE,
        decreases chunks.len() - i,
    {
        proof {
            use_type_invariant(&buffer);
        }
        assert(views.take((i + 1) as int).drop_last() =~= views.take(i as int));
        assert(views.take((i + 1) as int).last() == chunks[i as int]@);
        let ghost before = buffer@;
        match buffer.extend(chunks[i].as_slice()) {
            Ok(()) => {},
            Err(e) => {
                proof {
                    lemma_concat_grows(views, i as int + 1);
                }
                return Err(e);
            },
        }
        i = i + 1;
        proof {
            use_type_invariant(&buffer);
        }
    }
    assert(views.take(chunks.len() as int) =~= views);
    Ok(buffer)
}

/// A longer prefix of chunks never concatenates to fewer bytes.
pub proof fn lemma_concat_grows(chunks: Seq<Seq<u8>>, k: int)
    requires
        0 <= k <= chunks.len(),
    ensures
        concat(chunks.take(k)).len() <= concat(chunks).len(),
    decreases chunks.len() - k,
{
    if k < chunks.len() {
        lemma_concat_grows(chunks, k + 1);
        assert(chunks.take(k + 1).drop_last() =~= chunks.take(k));
    } else {
        assert(chunks.take(k) =~= chunks);
    }
}

} // verus!
