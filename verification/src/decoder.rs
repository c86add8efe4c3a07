//! Progressive reassembly of inbound byte streams into discrete messages.
//!
//! A transport is configured with one [`StreamEncoding`]. In `Raw` mode every
//! input chunk is one message. In `Json` mode bytes accumulate until they form
//! one complete JSON document; the document is emitted and the buffer reset,
//! and scanning continues with the remaining bytes of the chunk.

use vstd::prelude::*;

verus! {

/// Per-transport policy for turning inbound byte chunks into messages.
#[derive(Debug, Clone, Copy, PartialEq, Eq, Structural)]
pub enum StreamEncoding {
    Json,
    Raw,
}

impl StreamEncoding {
    /// Specification twin of [`StreamEncoding::from_tag`].
    pub open spec fn from_tag_spec(tag: u8) -> Result<
        StreamEncoding,
        crate::status::NetResultStatus,
    > {
        if tag == 1 {
            Ok(StreamEncoding::Json)
        } else if tag == 2 {
            Ok(StreamEncoding::Raw)
        } else {
            Err(crate::status::NetResultStatus::InvalidConfigParameters)
        }
    }

    /// Decode the host-boundary tag for the encoding.
    pub fn from_tag(tag: u8) -> (r: Result<StreamEncoding, crate::status::NetResultStatus>)
        ensures
            r == Self::from_tag_spec(tag),
    {
        match tag {
            1 => Ok(StreamEncoding::Json),
            2 => Ok(StreamEncoding::Raw),
            _ => Err(crate::status::NetResultStatus::InvalidConfigParameters),
        }
    }
}

/// Whether a byte sequence is one complete JSON document: valid UTF-8 whose
/// text parses as a single JSON value.
pub uninterp spec fn is_json_doc(bytes: Seq<u8>) -> bool;

/// Relies on core::str::from_utf8 and serde_json::from_str: both results
/// depend on the bytes alone, and together they decide whether the bytes are
/// one complete UTF-8 JSON document.
#[verifier::external_body]
fn json_document_ok(buf: &[u8]) -> (r: bool)
    ensures
        r == is_json_doc(buf@),
{
    match core::str::from_utf8(buf) {
        Ok(s) => serde_json::from_str::<serde_json::Value>(s).is_ok(),
        Err(_) => false,
    }
}

/// Json-mode scan: starting from buffered bytes `acc`, append the bytes of
/// `input` one at a time; whenever the buffer becomes one complete JSON
/// document, emit it and reset the buffer. Returns the emitted documents in
/// order and the bytes left buffered.
pub open spec fn json_steps(acc: Seq<u8>, input: Seq<u8>) -> (Seq<Seq<u8>>, Seq<u8>)
    decreases input.len(),
{
    if input.len() == 0 {
        (Seq::empty(), acc)
    } else {
        let grown = acc.push(input[0]);
        let rest = input.drop_first();
        if is_json_doc(grown) {
            let tail = json_steps(Seq::empty(), rest);
            (seq![grown] + tail.0, tail.1)
        } else {
            json_steps(grown, rest)
        }
    }
}

/// One call of [`StreamBuffer::add`]: the messages emitted for a chunk and the
/// buffer contents afterwards.
pub open spec fn buffer_step(enc: StreamEncoding, acc: Seq<u8>, chunk: Seq<u8>) -> (Seq<Seq<u8>>, Seq<
    u8,
>) {
    match enc {
        StreamEncoding::Raw => (seq![chunk], acc),
        StreamEncoding::Json => json_steps(acc, chunk),
    }
}

/// A whole run of chunks through one buffer: all messages emitted, in order,
/// and the final buffer contents.
pub open spec fn buffer_run(enc: StreamEncoding, acc: Seq<u8>, chunks: Seq<Seq<u8>>) -> (Seq<
    Seq<u8>,
>, Seq<u8>)
    decreases chunks.len(),
{
    if chunks.len() == 0 {
        (Seq::empty(), acc)
    } else {
        let first = buffer_step(enc, acc, chunks[0]);
        let rest = buffer_run(enc, first.1, chunks.drop_first());
        (first.0 + rest.0, rest.1)
    }
}

/// Reassembles framed payloads (raw chunks or concatenated JSON documents)
/// into discrete messages.
pub struct StreamBuffer {
    pub encoding: StreamEncoding,
    pub buffer: Vec<u8>,
}

impl StreamBuffer {
    /// An empty buffer for the given encoding.
    pub fn new(encoding: StreamEncoding) -> (r: StreamBuffer)
        ensures
            r.encoding == encoding,
            r.buffer@ == Seq::<u8>::empty(),
    {
        StreamBuffer { encoding, buffer: Vec::new() }
    }

    /// Feed one inbound chunk; returns the completed messages, in order.
    pub fn add(&mut self, buf: Vec<u8>) -> (msgs: Vec<Vec<u8>>)
        ensures
            final(self).encoding == old(self).encoding,
            msgs.deep_view() == buffer_step(old(self).encoding, old(self).buffer@, buf@).0,
            final(self).buffer@ == buffer_step(old(self).encoding, old(self).buffer@, buf@).1,
    {
        match self.encoding {
            StreamEncoding::Raw => {
                let ghost chunk = buf@;
                let mut msgs: Vec<Vec<u8>> = Vec::new();
                msgs.push(buf);
                proof {
                    assert(msgs.deep_view() =~~= seq![chunk]);
                }
                msgs
            },
            StreamEncoding::Json => self.scan_json(buf),
        }
    }

    /// Json-mode scan of one chunk, per [`json_steps`].
    fn scan_json(&mut self, buf: Vec<u8>) -> (msgs: Vec<Vec<u8>>)
        requires
            old(self).encoding is Json,
        ensures
            final(self).encoding == old(self).encoding,
            msgs.deep_view() == json_steps(old(self).buffer@, buf@).0,
            final(self).buffer@ == json_steps(old(self).buffer@, buf@).1,
    {
        let mut msgs: Vec<Vec<u8>> = Vec::new();
        let mut i: usize = 0;
        proof {
            assert(buf@.skip(0) =~= buf@);
            assert(msgs.deep_view() =~~= Seq::<Seq<u8>>::empty());
            assert(msgs.deep_view() + json_steps(self.buffer@, buf@).0 =~= json_steps(
                self.buffer@,
                buf@,
            ).0);
        }
        while i < buf.len()
            invariant
                self.encoding is Json,
                i <= buf.len(),
                json_steps(old(self).buffer@, buf@).0 == msgs.deep_view() + json_steps(
                    self.buffer@,
                    buf@.skip(i as int),
                ).0,
                json_steps(old(self).buffer@, buf@).1 == json_steps(
                    self.buffer@,
                    buf@.skip(i as int),
                ).1,
            decreases buf.len() - i,
        {
            let ghost pre = self.buffer@;
            let ghost remaining = buf@.skip(i as int);
            self.buffer.push(buf[i]);
            proof {
                assert(remaining.len() > 0);
                assert(remaining[0] == buf@[i as int]);
                assert(remaining.drop_first() =~= buf@.skip(i + 1));
                assert(self.buffer@ == pre.push(remaining[0]));
            }
            if json_document_ok(self.buffer.as_slice()) {
                let ghost grown = self.buffer@;
                let mut msg: Vec<u8> = Vec::new();
                core::mem::swap(&mut msg, &mut self.buffer);
                let ghost msgs_pre = msgs.deep_view();
                msgs.push(msg);
                proof {
                    assert(is_json_doc(grown));
                    assert(msgs.deep_view() =~~= msgs_pre.push(grown));
                    assert(self.buffer@ =~= Seq::<u8>::empty());
                    assert(json_steps(pre, remaining).0 == seq![grown] + json_steps(
                        Seq::<u8>::empty(),
                        buf@.skip(i + 1),
                    ).0);
                    assert(json_steps(pre, remaining).1 == json_steps(
                        Seq::<u8>::empty(),
                        buf@.skip(i + 1),
                    ).1);
                    assert(msgs_pre + json_steps(pre, remaining).0 =~= msgs.deep_view()
                        + json_steps(Seq::<u8>::empty(), buf@.skip(i + 1)).0);
                }
            } else {
                proof {
                    assert(!is_json_doc(pre.push(remaining[0])));
                    assert(json_steps(pre, remaining).0 == json_steps(
                        self.buffer@,
                        buf@.skip(i + 1),
                    ).0);
                    assert(json_steps(pre, remaining).1 == json_steps(
                        self.buffer@,
                        buf@.skip(i + 1),
                    ).1);
                }
            }
            i = i + 1;
        }
        proof {
            assert(buf@.skip(buf@.len() as int) =~= Seq::<u8>::empty());
            assert(json_steps(old(self).buffer@, buf@).0 =~= msgs.deep_view());
        }
        msgs
    }

    /// The encoding actually detected for a one-shot payload: a `Json` request
    /// is honoured only when the whole payload is one JSON document, else the
    /// payload is demoted to `Raw`.
    pub open spec fn detected_encoding(enc: StreamEncoding, bytes: Seq<u8>) -> StreamEncoding {
        match enc {
            StreamEncoding::Raw => StreamEncoding::Raw,
            StreamEncoding::Json => if is_json_doc(bytes) {
                StreamEncoding::Json
            } else {
                StreamEncoding::Raw
            },
        }
    }

    /// One-shot validation of a whole payload against the declared encoding.
    /// The bytes pass through unchanged; the returned encoding reports what was
    /// actually detected.
    pub fn try_current_buffer(buf: Vec<u8>, encoding: StreamEncoding) -> (r: (Vec<u8>, StreamEncoding))
        ensures
            r.0@ == buf@,
            r.1 == Self::detected_encoding(encoding, buf@),
    {
        match encoding {
            StreamEncoding::Raw => (buf, StreamEncoding::Raw),
            StreamEncoding::Json => {
                if json_document_ok(buf.as_slice()) {
                    (buf, StreamEncoding::Json)
                } else {
                    (buf, StreamEncoding::Raw)
                }
            },
        }
    }
}

/// Concatenation of a sequence of byte chunks.
pub open spec fn concat_all(chunks: Seq<Seq<u8>>) -> Seq<u8>
    decreases chunks.len(),
{
    if chunks.len() == 0 {
        Seq::empty()
    } else {
        chunks[0] + concat_all(chunks.drop_first())
    }
}

/// Law: Json-mode reassembly loses no bytes — the emitted documents,
/// concatenated with what stays buffered, are exactly the bytes that were
/// buffered before plus the bytes fed in.
pub proof fn lemma_json_reassembly_conserves_bytes(acc: Seq<u8>, input: Seq<u8>)
    ensures
        concat_all(json_steps(acc, input).0) + json_steps(acc, input).1 == acc + input,
    decreases input.len(),
{
    if input.len() == 0 {
        assert(concat_all(json_steps(acc, input).0) + json_steps(acc, input).1 =~= acc + input);
    } else {
        let grown = acc.push(input[0]);
        let rest = input.drop_first();
        if is_json_doc(grown) {
            let tail = json_steps(Seq::empty(), rest);
            lemma_json_reassembly_conserves_bytes(Seq::empty(), rest);
            assert(concat_all(seq![grown] + tail.0) =~= grown + concat_all(tail.0)) by {
                assert((seq![grown] + tail.0).drop_first() =~= tail.0);
            }
            assert(concat_all(Seq::<Seq<u8>>::empty()) + tail.1 =~= tail.1);
            assert(grown + (concat_all(tail.0) + tail.1) =~= acc + input);
            assert((grown + concat_all(tail.0)) + tail.1 =~= grown + (concat_all(tail.0) + tail.1));
        } else {
            lemma_json_reassembly_conserves_bytes(grown, rest);
            assert(grown + rest =~= acc + input);
        }
    }
}

/// Law: every message that Json-mode reassembly emits is one complete JSON
/// document.
pub proof fn lemma_json_reassembly_emits_documents(acc: Seq<u8>, input: Seq<u8>)
    ensures
        forall|k: int|
            0 <= k < json_steps(acc, input).0.len() ==> is_json_doc(
                #[trigger] json_steps(acc, input).0[k],
            ),
    decreases input.len(),
{
    if input.len() == 0 {
    } else {
        let grown = acc.push(input[0]);
        let rest = input.drop_first();
        if is_json_doc(grown) {
            lemma_json_reassembly_emits_documents(Seq::empty(), rest);
            let tail = json_steps(Seq::empty(), rest);
            let s = json_steps(acc, input).0;
            assert(s == seq![grown] + tail.0);
            assert forall|k: int| 0 <= k < s.len() implies is_json_doc(s[k]) by {
                if k == 0 {
                    assert(s[k] == grown);
                } else {
                    assert(s[k] == tail.0[k - 1]);
                }
            }
        } else {
            lemma_json_reassembly_emits_documents(grown, rest);
            let s = json_steps(acc, input).0;
            assert(s == json_steps(grown, rest).0);
            assert forall|k: int| 0 <= k < s.len() implies is_json_doc(s[k]) by {
                assert(s[k] == json_steps(grown, rest).0[k]);
            }
        }
    }
}

/// Law: in Raw mode, N input chunks produce exactly N messages with identical
/// byte-level contents, and the buffer is never touched.
pub proof fn lemma_raw_passthrough(acc: Seq<u8>, chunks: Seq<Seq<u8>>)
    ensures
        buffer_run(StreamEncoding::Raw, acc, chunks).0 == chunks,
        buffer_run(StreamEncoding::Raw, acc, chunks).1 == acc,
    decreases chunks.len(),
{
    if chunks.len() == 0 {
        assert(buffer_run(StreamEncoding::Raw, acc, chunks).0 =~= chunks);
    } else {
        lemma_raw_passthrough(acc, chunks.drop_first());
        assert(buffer_run(StreamEncoding::Raw, acc, chunks).0 =~= chunks) by {
            assert(buffer_run(StreamEncoding::Raw, acc, chunks).0 =~= seq![chunks[0]]
                + chunks.drop_first());
        }
    }
}

} // verus!
