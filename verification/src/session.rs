//! Requests to the cluster for one container, and the text of what an
//! attached session sent back.

use crate::output::Invocation;
use crate::output::InvocationView;
use crate::output::text_of;
use crate::text::clone_texts;
use crate::text::lemma_take_step;
use vstd::prelude::*;
use vstd::string::StrSliceExecFns;
use vstd::string::StringExecFns;
use vstd::utf8::decode_utf8;
use vstd::utf8::decode_utf8_encode_utf8;
use vstd::utf8::encode_utf8;
use vstd::utf8::encode_utf8_decode_utf8;
use vstd::utf8::valid_utf8;

verus! {

/// A request for the log text of one container.
#[derive(Clone, Debug, PartialEq, Eq)]
pub struct LogRequest {
    pub pod: String,
    pub container: String,
    /// Whether the cluster formats what it sends.
    pub pretty: bool,
    /// Whether the log of the last terminated incarnation is asked for.
    pub previous: bool,
}

/// A request to run a command inside one container.
#[derive(Clone, Debug, PartialEq, Eq)]
pub struct ExecRequest {
    pub pod: String,
    pub container: String,
    /// The command and its arguments, word by word.
    pub command: Vec<String>,
    pub stdin: bool,
    pub stdout: bool,
    pub stderr: bool,
    pub tty: bool,
}

/// What a session sent back on its two streams, as text.
#[derive(Clone, Debug, PartialEq, Eq)]
pub struct ExecOutput {
    pub stdout: String,
    pub stderr: String,
}

/// The request for the log text of `pcontainer` of the instance `pname`:
/// that of the running incarnation, or, with `previous`, that of the last
/// terminated one.
pub fn get_logs(pname: &str, pcontainer: &str, previous: bool) -> (r: LogRequest)
    ensures
        r.pod@ == pname@,
        r.container@ == pcontainer@,
        r.pretty,
        r.previous == previous,
{
    LogRequest {
        pod: String::from_str(pname),
        container: String::from_str(pcontainer),
        pretty: true,
        previous,
    }
}

/// The request to run `command` inside `container` of the instance
/// `pod_name`: both output streams are captured, nothing is fed in, and no
/// terminal is allocated.
pub fn send_command(pod_name: &str, container: &str, command: &Vec<String>) -> (r: ExecRequest)
    ensures
        r.pod@ == pod_name@,
        r.container@ == container@,
        r.command.deep_view() == command.deep_view(),
        !r.stdin,
        r.stdout,
        r.stderr,
        !r.tty,
{
    ExecRequest {
        pod: String::from_str(pod_name),
        container: String::from_str(container),
        command: clone_texts(command),
        stdin: false,
        stdout: true,
        stderr: true,
        tty: false,
    }
}

/// The text of one piece of a stream, taken by itself: a piece that is
/// not UTF-8 by itself has none.
pub open spec fn chunk_text(chunk: Seq<u8>) -> Seq<char> {
    if valid_utf8(chunk) {
        decode_utf8(chunk)
    } else {
        Seq::empty()
    }
}

/// The text of a stream read piece by piece: the texts of the pieces
/// `chunks`, each taken by itself, in their order.
pub open spec fn stream_text(chunks: Seq<Seq<u8>>) -> Seq<char>
    decreases chunks.len(),
{
    if chunks.len() == 0 {
        Seq::empty()
    } else {
        stream_text(chunks.drop_last()) + chunk_text(chunks.last())
    }
}

/// The text of a stream that arrived in the pieces `chunks`. Where the
/// pieces make up UTF-8 it is the text of all their bytes, wherever the
/// stream was cut, be it inside a character. Only where they do not is
/// the stream read piece by piece.
pub open spec fn output_text(chunks: Seq<Seq<u8>>) -> Seq<char> {
    if valid_utf8(chunks.flatten()) {
        decode_utf8(chunks.flatten())
    } else {
        stream_text(chunks)
    }
}

/// The bytes of the pieces `chunks`, one piece after the other.
fn joined(chunks: &Vec<Vec<u8>>) -> (whole: Vec<u8>)
    ensures
        whole@ == chunks.deep_view().flatten(),
{
    let mut whole: Vec<u8> = Vec::new();
    let mut i: usize = 0;
    assert(chunks.deep_view().take(0) =~= Seq::<Seq<u8>>::empty());
    while i < chunks.len()
        invariant
            i <= chunks.len(),
            whole@ == chunks.deep_view().take(i as int).flatten(),
        decreases chunks.len() - i,
    {
        let ghost before = whole@;
        whole.extend_from_slice(chunks[i].as_slice());
        proof {
            let pieces = chunks.deep_view();
            assert(pieces[i as int] =~= chunks[i as int]@);
            assert(whole@ =~= before + chunks[i as int]@);
            lemma_take_step(pieces, i as int);
            pieces.take(i as int).lemma_flatten_push(pieces[i as int]);
        }
        i += 1;
    }
    proof {
        assert(chunks.deep_view().take(chunks.len() as int) =~= chunks.deep_view());
    }
    whole
}

/// The text of a stream read piece by piece.
fn piecewise(chunks: &Vec<Vec<u8>>) -> (r: String)
    ensures
        r@ == stream_text(chunks.deep_view()),
{
    let mut out = String::new();
    let mut i: usize = 0;
    assert(chunks.deep_view().take(0).len() == 0);
    while i < chunks.len()
        invariant
            i <= chunks.len(),
            out@ == stream_text(chunks.deep_view().take(i as int)),
        decreases chunks.len() - i,
    {
        proof {
            lemma_take_step(chunks.deep_view(), i as int);
            assert(chunks.deep_view()[i as int] =~= chunks[i as int]@);
        }
        match text_of(chunks[i].as_slice()) {
            Some(text) => {
                proof {
                    encode_utf8_decode_utf8(text@);
                }
                out.append(text.as_str());
            },
            None => {
                assert(out@ + Seq::<char>::empty() =~= out@);
            },
        }
        i += 1;
    }
    proof {
        assert(chunks.deep_view().take(chunks.len() as int) =~= chunks.deep_view());
    }
    out
}

/// The text of a stream that arrived in the pieces `chunks`, once the
/// session is over. A stream that is UTF-8 comes back whole, whatever the
/// pieces in which it arrived.
pub fn get_output(chunks: &Vec<Vec<u8>>) -> (r: String)
    ensures
        valid_utf8(chunks.deep_view().flatten()) ==> r@ == decode_utf8(
            chunks.deep_view().flatten(),
        ),
        !valid_utf8(chunks.deep_view().flatten()) ==> r@ == stream_text(chunks.deep_view()),
        r@ == output_text(chunks.deep_view()),
{
    let whole = joined(chunks);
    match text_of(whole.as_slice()) {
        Some(text) => {
            proof {
                encode_utf8_decode_utf8(text@);
            }
            text
        },
        None => piecewise(chunks),
    }
}

/// A stream that is UTF-8 gives the same text however it is cut into
/// pieces: text cut inside a character comes back whole.
pub proof fn lemma_cuts_do_not_matter(one: Seq<Seq<u8>>, other: Seq<Seq<u8>>)
    requires
        one.flatten() == other.flatten(),
        valid_utf8(one.flatten()),
    ensures
        output_text(one) == output_text(other),
        encode_utf8(output_text(one)) == one.flatten(),
{
    decode_utf8_encode_utf8(one.flatten());
}

impl ExecOutput {
    /// What a session sent back, from the pieces in which its two streams
    /// arrived.
    pub fn collect(stdout: &Vec<Vec<u8>>, stderr: &Vec<Vec<u8>>) -> (r: ExecOutput)
        ensures
            r.stdout@ == output_text(stdout.deep_view()),
            r.stderr@ == output_text(stderr.deep_view()),
    {
        ExecOutput { stdout: get_output(stdout), stderr: get_output(stderr) }
    }

    /// Both streams as one text: the output, then the errors.
    pub fn combined(&self) -> (r: String)
        ensures
            r@ == self.stdout@ + self.stderr@,
    {
        let mut all = self.stdout.clone();
        all.append(self.stderr.as_str());
        all
    }

    /// The two streams as what a retrieval came to, each as the bytes of
    /// its text.
    pub fn into_invocation(self) -> (r: Invocation)
        ensures
            r@ == (InvocationView::Finished {
                stdout: encode_utf8(self.stdout@),
                stderr: encode_utf8(self.stderr@),
            }),
    {
        Invocation::Finished {
            stdout: self.stdout.as_str().as_bytes_vec(),
            stderr: self.stderr.as_str().as_bytes_vec(),
        }
    }
}

} // verus!
