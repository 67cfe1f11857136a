//! The fingerprint of a file's content: the MD5 digest of its bytes, written
//! in hexadecimal.
//!
//! A file is fed chunk by chunk, so that no more than one chunk of it is held
//! in memory. The digest itself is the work of the `md5` crate.

use vstd::prelude::*;
use vstd::string::StringExecFns;

verus! {

/// The type `md5::Context`: a digest in the making. What it holds is
/// spoken of through [`consumed`] alone.
#[verifier::external_type_specification]
#[verifier::external_body]
pub struct ExContext(md5::Context);

/// The bytes that a context of the `md5` crate has consumed, in order.
pub uninterp spec fn consumed(context: md5::Context) -> Seq<u8>;

/// The MD5 digest of a sequence of bytes, as the `md5` crate computes it.
pub uninterp spec fn md5_digest(data: Seq<u8>) -> Seq<u8>;

/// The hexadecimal digit, in lower case, of a number below sixteen.
pub open spec fn hex_char(n: nat) -> char {
    if n == 0 {
        '0'
    } else if n == 1 {
        '1'
    } else if n == 2 {
        '2'
    } else if n == 3 {
        '3'
    } else if n == 4 {
        '4'
    } else if n == 5 {
        '5'
    } else if n == 6 {
        '6'
    } else if n == 7 {
        '7'
    } else if n == 8 {
        '8'
    } else if n == 9 {
        '9'
    } else if n == 10 {
        'a'
    } else if n == 11 {
        'b'
    } else if n == 12 {
        'c'
    } else if n == 13 {
        'd'
    } else if n == 14 {
        'e'
    } else {
        'f'
    }
}

/// Bytes written in hexadecimal: two digits for each, the high one first.
pub open spec fn hex_text(bytes: Seq<u8>) -> Seq<char>
    decreases bytes.len(),
{
    if bytes.len() == 0 {
        Seq::<char>::empty()
    } else {
        hex_text(bytes.drop_last()).push(hex_char(bytes.last() as nat / 16)).push(
            hex_char(bytes.last() as nat % 16),
        )
    }
}

/// The fingerprint of a content.
pub open spec fn fingerprint(content: Seq<u8>) -> Seq<char> {
    hex_text(md5_digest(content))
}

/// Chunks laid end to end.
pub open spec fn joined(chunks: Seq<Seq<u8>>) -> Seq<u8>
    decreases chunks.len(),
{
    if chunks.len() == 0 {
        Seq::<u8>::empty()
    } else {
        joined(chunks.drop_last()) + chunks.last()
    }
}

/// Calls `md5::Context::new`.
///
/// Trusted: a new context has consumed nothing.
#[verifier::external_body]
fn new_context() -> (context: md5::Context)
    ensures
        consumed(context) == Seq::<u8>::empty(),
{
    md5::Context::new()
}

/// Calls `md5::Context::consume`.
///
/// Trusted: the context has then consumed the given bytes after those it had
/// consumed before.
#[verifier::external_body]
fn consume(context: &mut md5::Context, data: &[u8])
    ensures
        consumed(*final(context)) == consumed(*old(context)) + data@,
{
    context.consume(data)
}

/// Calls `md5::Context::compute` and hands out the sixteen bytes of the digest.
///
/// Trusted: the digest depends on nothing but the bytes that the context has
/// consumed, and is sixteen bytes long.
#[verifier::external_body]
fn compute(context: md5::Context) -> (digest: Vec<u8>)
    ensures
        digest@ == md5_digest(consumed(context)),
        digest@.len() == 16,
{
    context.compute().0.to_vec()
}

/// Bytes written in hexadecimal take two characters each.
pub proof fn hex_text_len(bytes: Seq<u8>)
    ensures
        hex_text(bytes).len() == 2 * bytes.len(),
    decreases bytes.len(),
{
    if bytes.len() > 0 {
        hex_text_len(bytes.drop_last());
    }
}

/// The one-character text of a hexadecimal digit.
fn hex_str(n: u8) -> (text: &'static str)
    requires
        n < 16,
    ensures
        text@ == seq![hex_char(n as nat)],
{
    proof {
        reveal_strlit("0");
        reveal_strlit("1");
        reveal_strlit("2");
        reveal_strlit("3");
        reveal_strlit("4");
        reveal_strlit("5");
        reveal_strlit("6");
        reveal_strlit("7");
        reveal_strlit("8");
        reveal_strlit("9");
        reveal_strlit("a");
        reveal_strlit("b");
        reveal_strlit("c");
        reveal_strlit("d");
        reveal_strlit("e");
        reveal_strlit("f");
    }
    let text = if n == 0 {
        "0"
    } else if n == 1 {
        "1"
    } else if n == 2 {
        "2"
    } else if n == 3 {
        "3"
    } else if n == 4 {
        "4"
    } else if n == 5 {
        "5"
    } else if n == 6 {
        "6"
    } else if n == 7 {
        "7"
    } else if n == 8 {
        "8"
    } else if n == 9 {
        "9"
    } else if n == 10 {
        "a"
    } else if n == 11 {
        "b"
    } else if n == 12 {
        "c"
    } else if n == 13 {
        "d"
    } else if n == 14 {
        "e"
    } else {
        "f"
    };
    assert(text@ =~= seq![hex_char(n as nat)]);
    text
}

/// Writes bytes in hexadecimal, in lower case.
pub fn hex(bytes: &[u8]) -> (text: String)
    ensures
        text@ == hex_text(bytes@),
        text@.len() == 2 * bytes@.len(),
{
    proof {
        hex_text_len(bytes@);
    }
    let mut text = String::new();
    let mut i: usize = 0;
    while i < bytes.len()
        invariant
            i <= bytes@.len(),
            text@ == hex_text(bytes@.take(i as int)),
        decreases bytes.len() - i,
    {
        let byte = bytes[i];
        proof {
            assert(bytes@.take(i + 1).drop_last() =~= bytes@.take(i as int));
            assert(bytes@.take(i + 1).last() == byte);
        }
        text.append(hex_str(byte / 16));
        text.append(hex_str(byte % 16));
        assert(text@ =~= hex_text(bytes@.take(i + 1)));
        i += 1;
    }
    assert(bytes@.take(bytes@.len() as int) =~= bytes@);
    text
}

/// A checksum in the making: what has been fed to it so far.
pub struct Checksum {
    context: md5::Context,
}

/// What one turn of reading a file leads to.
pub enum Progress {
    /// The chunk was taken in; the file may hold more.
    More(Checksum),
    /// The file has ended; this is its fingerprint.
    Done(String),
}

impl View for Checksum {
    type V = Seq<u8>;

    closed spec fn view(&self) -> Seq<u8> {
        consumed(self.context)
    }
}

impl Checksum {
    /// A checksum that has been fed nothing.
    pub fn new() -> (checksum: Checksum)
        ensures
            checksum@ == Seq::<u8>::empty(),
    {
        Checksum { context: new_context() }
    }

    /// Feeds the next chunk of the content.
    pub fn update(&mut self, chunk: &[u8])
        ensures
            final(self)@ == old(self)@ + chunk@,
    {
        consume(&mut self.context, chunk);
    }

    /// The fingerprint of all that was fed.
    pub fn finish(self) -> (digest: String)
        ensures
            digest@ == fingerprint(self@),
            digest@.len() == 32,
    {
        let bytes = compute(self.context);
        hex(bytes.as_slice())
    }

    /// One turn of reading a file: a chunk that holds nothing says that the
    /// file has ended, any other chunk is fed.
    pub fn step(self, chunk: &[u8]) -> (progress: Progress)
        ensures
            chunk@.len() == 0 ==> (progress matches Progress::Done(digest) && digest@
                == fingerprint(self@) && digest@.len() == 32),
            chunk@.len() > 0 ==> (progress matches Progress::More(checksum) && checksum@ == self@
                + chunk@),
    {
        if chunk.len() == 0 {
            Progress::Done(self.finish())
        } else {
            let mut checksum = self;
            checksum.update(chunk);
            Progress::More(checksum)
        }
    }
}

/// The fingerprint of a content that is given in chunks.
pub fn checksum_chunks(chunks: &Vec<Vec<u8>>) -> (digest: String)
    ensures
        digest@ == fingerprint(joined(chunks.deep_view())),
        digest@.len() == 32,
{
    let ghost all = chunks.deep_view();
    let mut checksum = Checksum::new();
    let mut i: usize = 0;
    while i < chunks.len()
        invariant
            i <= chunks.len(),
            all == chunks.deep_view(),
            checksum@ == joined(all.take(i as int)),
        decreases chunks.len() - i,
    {
        proof {
            assert(all.take(i + 1).drop_last() =~= all.take(i as int));
            assert(all.take(i + 1).last() == chunks@[i as int]@);
        }
        checksum.update(chunks[i].as_slice());
        i += 1;
    }
    assert(all.take(chunks.len() as int) =~= all);
    checksum.finish()
}

/// The fingerprint depends on the content alone: however a content is cut
/// into chunks, its fingerprint is the same.
pub proof fn fingerprint_ignores_chunking(one: Seq<Seq<u8>>, other: Seq<Seq<u8>>)
    requires
        joined(one) == joined(other),
    ensures
        fingerprint(joined(one)) == fingerprint(joined(other)),
{
}

} // verus!
