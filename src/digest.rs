use vstd::prelude::*;

verus! {

#[verifier::external_type_specification]
#[verifier::external_body]
pub struct ExHasher(blake3::Hasher);

/// The bytes that a BLAKE3 hasher has been fed, in order.
pub uninterp spec fn hasher_input(h: blake3::Hasher) -> Seq<u8>;

/// The lowercase hexadecimal BLAKE3 digest of `bytes`.
pub uninterp spec fn blake3_hex(bytes: Seq<u8>) -> Seq<char>;

/// A lowercase hexadecimal digit.
pub open spec fn is_hex_digit(c: char) -> bool {
    ('0' <= c && c <= '9') || ('a' <= c && c <= 'f')
}

/// The content digest of a file whose bytes are `bytes`.
pub open spec fn content_digest(bytes: Seq<u8>) -> Seq<char> {
    blake3_hex(bytes)
}

/// The bytes of a file read as `chunks`, one buffer after the other.
pub open spec fn concat_chunks(chunks: Seq<Seq<u8>>) -> Seq<u8> {
    chunks.flatten()
}

/// Relies on blake3::Hasher::new: a hasher that has been fed nothing.
#[verifier::external_body]
fn new_hasher() -> (r: blake3::Hasher)
    ensures
        hasher_input(r) == Seq::<u8>::empty(),
{
    blake3::Hasher::new()
}

/// Relies on blake3::Hasher::update: the input goes after what came before.
#[verifier::external_body]
fn hasher_update(h: &mut blake3::Hasher, input: &[u8])
    ensures
        hasher_input(*final(h)) == hasher_input(*old(h)) + input@,
{
    h.update(input);
}

/// Relies on blake3::Hasher::finalize and Hash::to_hex: the digest of all the
/// input so far, as 64 lowercase hexadecimal digits; the hasher is unchanged.
#[verifier::external_body]
fn hasher_finalize_hex(h: &blake3::Hasher) -> (r: String)
    ensures
        r@ == blake3_hex(hasher_input(*h)),
        r@.len() == 64,
        forall|i: int| 0 <= i < r@.len() ==> is_hex_digit(#[trigger] r@[i]),
{
    h.finalize().to_hex().as_str().to_string()
}

/// Computes the content digest of a file fed to it one buffer at a time.
pub struct ContentHasher {
    hasher: blake3::Hasher,
}

impl ContentHasher {
    /// The bytes fed so far.
    pub closed spec fn consumed(&self) -> Seq<u8> {
        hasher_input(self.hasher)
    }

    pub fn new() -> (r: Self)
        ensures
            r.consumed() == Seq::<u8>::empty(),
    {
        ContentHasher { hasher: new_hasher() }
    }

    /// Feeds the next buffer of the file.
    pub fn update(&mut self, input: &[u8])
        ensures
            final(self).consumed() == old(self).consumed() + input@,
    {
        hasher_update(&mut self.hasher, input);
    }

    /// The digest of everything fed so far.
    pub fn finalize(&self) -> (r: String)
        ensures
            r@ == content_digest(self.consumed()),
            r@.len() == 64,
            forall|i: int| 0 <= i < r@.len() ==> is_hex_digit(#[trigger] r@[i]),
    {
        hasher_finalize_hex(&self.hasher)
    }
}

/// The content digest of a file read as the buffers `chunks`.
pub fn digest_chunks(chunks: &Vec<Vec<u8>>) -> (r: String)
    ensures
        r@ == content_digest(concat_chunks(chunks@.map_values(|c: Vec<u8>| c@))),
        r@.len() == 64,
{
    let ghost views = chunks@.map_values(|c: Vec<u8>| c@);
    let mut hasher = ContentHasher::new();
    let mut i: usize = 0;
    while i < chunks.len()
        invariant
            i <= chunks@.len(),
            views == chunks@.map_values(|c: Vec<u8>| c@),
            hasher.consumed() == views.subrange(0, i as int).flatten(),
        decreases chunks@.len() - i,
    {
        proof {
            assert(views.subrange(0, i + 1) =~= views.subrange(0, i as int).push(views[i as int]));
            views.subrange(0, i as int).lemma_flatten_push(views[i as int]);
        }
        hasher.update(chunks[i].as_slice());
        i = i + 1;
    }
    proof {
        assert(views.subrange(0, chunks@.len() as int) =~= views);
    }
    hasher.finalize()
}

/// However a file is cut into buffers, the digest depends only on its bytes:
/// two ways of reading the same content give the same digest, and both give
/// the digest of reading it in one buffer.
pub proof fn lemma_digest_independent_of_buffering(a: Seq<Seq<u8>>, b: Seq<Seq<u8>>)
    requires
        concat_chunks(a) == concat_chunks(b),
    ensures
        content_digest(concat_chunks(a)) == content_digest(concat_chunks(b)),
        content_digest(concat_chunks(a)) == content_digest(concat_chunks(seq![concat_chunks(a)])),
{
    seq![concat_chunks(a)].lemma_flatten_one_element();
}

} // verus!
