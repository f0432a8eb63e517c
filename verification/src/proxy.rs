//! The head that opens a tunnel: the target host, framed by its length.

use bytes::BufMut;
use bytes::{Bytes, BytesMut};
use vstd::prelude::*;
use vstd::string::StringSliceAdditionalSpecFns;
use vstd::utf8::{
    decode_utf8, decode_utf8_encode_utf8, encode_scalar, encode_utf8, encode_utf8_decode_utf8,
    encode_utf8_valid_utf8, valid_utf8,
};

verus! {

#[verifier::external_type_specification]
#[verifier::external_body]
pub struct ExBytes(Bytes);

#[verifier::external_type_specification]
#[verifier::external_body]
pub struct ExBytesMut(BytesMut);

/// The bytes that a `Bytes` holds.
pub uninterp spec fn bytes_content(b: Bytes) -> Seq<u8>;

/// The bytes that a `BytesMut` holds.
pub uninterp spec fn bytes_mut_content(b: BytesMut) -> Seq<u8>;

/// The two bytes of a number, high byte first.
pub open spec fn big_endian_16(n: nat) -> Seq<u8> {
    seq![(n / 256) as u8, (n % 256) as u8]
}

/// Calls `BytesMut::new`: an empty buffer.
#[verifier::external_body]
pub(crate) fn buffer() -> (r: BytesMut)
    ensures
        bytes_mut_content(r) == Seq::<u8>::empty(),
{
    BytesMut::new()
}

/// Calls `BufMut::put_u16`: appends a number, high byte first.
#[verifier::external_body]
pub(crate) fn put_u16(buf: &mut BytesMut, n: u16)
    ensures
        bytes_mut_content(*final(buf)) == bytes_mut_content(*old(buf)) + big_endian_16(n as nat),
{
    buf.put_u16(n);
}

/// Calls `BufMut::put_u8`: appends one byte.
#[verifier::external_body]
pub(crate) fn put_u8(buf: &mut BytesMut, n: u8)
    ensures
        bytes_mut_content(*final(buf)) == bytes_mut_content(*old(buf)).push(n),
{
    buf.put_u8(n);
}

/// Calls `BufMut::put_slice`: appends the bytes of a slice.
#[verifier::external_body]
pub(crate) fn put_slice(buf: &mut BytesMut, bytes: &[u8])
    ensures
        bytes_mut_content(*final(buf)) == bytes_mut_content(*old(buf)) + bytes@,
{
    buf.put_slice(bytes);
}

/// Calls `BytesMut::freeze`: the same bytes, no longer to be changed.
#[verifier::external_body]
pub(crate) fn freeze(buf: BytesMut) -> (r: Bytes)
    ensures
        bytes_content(r) == bytes_mut_content(buf),
{
    buf.freeze()
}

/// Calls `Bytes::as_ref`: the bytes as a slice.
#[verifier::external_body]
pub(crate) fn bytes_slice(bytes: &Bytes) -> (r: &[u8])
    ensures
        r@ == bytes_content(*bytes),
{
    bytes.as_ref()
}

/// Calls `std::str::from_utf8`: the text that the bytes encode, if they are
/// well-formed UTF-8, and else nothing.
#[verifier::external_body]
pub(crate) fn text_from_utf8(bytes: &[u8]) -> (r: Option<&str>)
    ensures
        match r {
            Some(s) => valid_utf8(bytes@) && s.spec_bytes() == bytes@,
            None => !valid_utf8(bytes@),
        },
{
    std::str::from_utf8(bytes).ok()
}

/// The encoding of two texts one after the other is that of the first, then that
/// of the second.
pub proof fn lemma_encode_concat(a: Seq<char>, b: Seq<char>)
    ensures
        encode_utf8(a + b) == encode_utf8(a) + encode_utf8(b),
    decreases a.len(),
{
    if a.len() == 0 {
        assert(a + b =~= b);
        assert(encode_utf8(a) =~= Seq::<u8>::empty());
        assert(encode_utf8(a) + encode_utf8(b) =~= encode_utf8(b));
    } else {
        assert((a + b).drop_first() =~= a.drop_first() + b);
        lemma_encode_concat(a.drop_first(), b);
        assert((a + b)[0] == a[0]);
        assert(encode_utf8(a) == encode_scalar(a[0] as u32) + encode_utf8(a.drop_first()));
        assert(encode_utf8(a) + encode_utf8(b) =~= encode_scalar(a[0] as u32) + (encode_utf8(
            a.drop_first(),
        ) + encode_utf8(b)));
    }
}

/// The frame of a host name: its length in two bytes, then the name. Of a longer
/// length only the low sixteen bits are kept.
pub open spec fn framed(host: Seq<u8>) -> Seq<u8> {
    big_endian_16(host.len() % 65536) + host
}

/// The bytes that a client sends first on a stream: the host to connect to.
pub struct ConnectHeadBuf(Bytes);

impl ConnectHeadBuf {
    /// The bytes on the wire.
    pub closed spec fn view(&self) -> Seq<u8> {
        bytes_content(self.0)
    }

    /// The host that the head names.
    pub open spec fn host(&self) -> Seq<char> {
        decode_utf8(self@.skip(2))
    }

    /// A head is the frame of a text.
    pub open spec fn wf(&self) -> bool {
        self@ == framed(encode_utf8(self.host()))
    }

    /// The head for a host.
    pub fn new(host: &str) -> (r: Self)
        ensures
            r.wf(),
            r.host() == host@,
            r@ == framed(encode_utf8(host@)),
    {
        proof {
            encode_utf8_valid_utf8(host@);
            encode_utf8_decode_utf8(host@);
        }
        Self::from_slice(host.as_bytes())
    }

    /// The head for a host whose encoding was put together in a buffer.
    pub(crate) fn from_buffer(host: BytesMut) -> (r: Self)
        requires
            valid_utf8(bytes_mut_content(host)),
        ensures
            r.wf(),
            r.host() == decode_utf8(bytes_mut_content(host)),
            r@ == framed(bytes_mut_content(host)),
    {
        let bytes = freeze(host);
        Self::from_slice(bytes_slice(&bytes))
    }

    fn from_slice(bytes: &[u8]) -> (r: Self)
        requires
            valid_utf8(bytes@),
        ensures
            r.wf(),
            r.host() == decode_utf8(bytes@),
            r@ == framed(bytes@),
    {
        let mut buf = buffer();
        put_u16(&mut buf, (bytes.len() % 65536) as u16);
        put_slice(&mut buf, bytes);
        let r = ConnectHeadBuf(freeze(buf));
        proof {
            assert(r@ =~= framed(bytes@));
            assert(r@.skip(2) =~= bytes@);
            decode_utf8_encode_utf8(bytes@);
        }
        r
    }

    /// The bytes on the wire.
    pub fn as_ref(&self) -> (r: &[u8])
        ensures
            r@ == self@,
    {
        bytes_slice(&self.0)
    }

    /// The host that the head names.
    pub fn as_str(&self) -> (r: &str)
        requires
            self.wf(),
        ensures
            r@ == self.host(),
    {
        let bytes = bytes_slice(&self.0);
        let tail = vstd::slice::slice_subrange(bytes, 2, bytes.len());
        proof {
            assert(self@.len() >= 2);
            assert(tail@ =~= self@.skip(2));
            assert(tail@ =~= encode_utf8(self.host()));
            encode_utf8_valid_utf8(self.host());
        }
        match text_from_utf8(tail) {
            Some(s) => {
                proof {
                    encode_utf8_decode_utf8(s@);
                    encode_utf8_decode_utf8(self.host());
                }
                s
            },
            None => "",
        }
    }
}

/// A tunnel head that is no text.
#[derive(Clone, Copy, PartialEq, Eq, Structural, Debug)]
pub struct HeadError;

/// The host that a tunnel connects to: the text that the bytes after the length
/// encode.
pub fn tunnel_target(received: &[u8]) -> (r: Result<&str, HeadError>)
    ensures
        match r {
            Ok(host) => valid_utf8(received@) && host@ == decode_utf8(received@),
            Err(_) => !valid_utf8(received@),
        },
{
    match text_from_utf8(received) {
        Some(host) => {
            proof {
                encode_utf8_decode_utf8(host@);
            }
            Ok(host)
        },
        None => Err(HeadError),
    }
}

/// What one side frames the other side reads back: of the head of a host whose
/// encoding takes at most 65535 bytes, the first two bytes give the length of
/// the rest, and the rest is the encoding of that host and of no other.
pub proof fn law_head_roundtrip(host: Seq<char>, other: Seq<char>)
    requires
        encode_utf8(host).len() <= 65535,
    ensures
        ({
            let head = framed(encode_utf8(host));
            &&& head.len() >= 2
            &&& head[0] * 256 + head[1] == head.skip(2).len()
            &&& valid_utf8(head.skip(2))
            &&& decode_utf8(head.skip(2)) == host
            &&& head == framed(encode_utf8(other)) ==> host == other
        }),
{
    let bytes = encode_utf8(host);
    let head = framed(bytes);
    assert(head.skip(2) =~= bytes);
    encode_utf8_valid_utf8(host);
    encode_utf8_decode_utf8(host);
    if head == framed(encode_utf8(other)) {
        assert(framed(encode_utf8(other)).skip(2) =~= encode_utf8(other));
        encode_utf8_decode_utf8(other);
    }
}

/// What the client writes is what the server reads: the bytes after the length in the head of a
/// host are read as that host, the length is that of those bytes, and two hosts have two heads.
pub proof fn law_written_head_is_read(
    host: &str,
    other: &str,
    head: ConnectHeadBuf,
    other_head: ConnectHeadBuf,
    bytes: &[u8],
    other_bytes: &[u8],
    tail: &[u8],
    r: Result<&str, HeadError>,
    named: &str,
)
    requires
        call_ensures(ConnectHeadBuf::new, (host,), head),
        call_ensures(ConnectHeadBuf::new, (other,), other_head),
        call_ensures(ConnectHeadBuf::as_ref, (&head,), bytes),
        call_ensures(ConnectHeadBuf::as_ref, (&other_head,), other_bytes),
        call_ensures(ConnectHeadBuf::as_str, (&head,), named),
        tail@ == bytes@.skip(2),
        call_ensures(tunnel_target, (tail,), r),
    ensures
        bytes@.len() == encode_utf8(host@).len() + 2,
        encode_utf8(host@).len() <= 0xffff ==> bytes@[0] * 256 + bytes@[1] == bytes@.len() - 2,
        (bytes@.len() - 2 - bytes@[0] * 256 - bytes@[1]) % 0x1_0000 == 0,
        r matches Ok(read) && read@ == host@,
        named@ == host@,
        bytes@ == other_bytes@ ==> host@ == other@,
{
    let encoded = encode_utf8(host@);
    assert(bytes@.skip(2) =~= encoded);
    encode_utf8_valid_utf8(host@);
    encode_utf8_decode_utf8(host@);
    assert(other_bytes@.skip(2) =~= encode_utf8(other@));
    encode_utf8_decode_utf8(other@);
    if encoded.len() <= 0xffff {
        assert(encoded.len() % 65536 == encoded.len());
    }
}

} // verus!
