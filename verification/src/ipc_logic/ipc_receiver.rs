//! The files through which another program hands over new point clouds:
//! what is in them, and whose turn it is.
//!
//! A point cloud is written as numbers separated by `|`, three to a point.
//! What is done here is to find the pieces of text that stand for the
//! numbers, and to group them into points. To read a number out of its
//! piece is left to the caller.

use vstd::prelude::*;
use vstd::string::StringExecFns;
use vstd::utf8::encode_utf8;
use crate::args_parser::{IPCFiles, IPCFilesView};

verus! {

/// The byte that separates the components of positions.
pub const SEPARATOR: u8 = 124;

/// A piece of a text: the bytes from `start` up to, not including, `end`.
#[derive(Clone, Copy, Debug, PartialEq, Eq, Structural)]
pub struct TextRange {
    pub start: usize,
    pub end: usize,
}

/// The pieces of text that stand for the three components of one point.
#[derive(Clone, Copy, Debug, PartialEq, Eq, Structural)]
pub struct VertexText {
    pub x: TextRange,
    pub y: TextRange,
    pub z: TextRange,
}

/// The points found in a text, and the number of components that the text
/// holds. Where that is no multiple of three, the last point was incomplete
/// and is left out.
pub struct CloudText {
    pub vertices: Vec<VertexText>,
    pub components: usize,
}

/// The pieces of a text from `at` on, where the piece that `at` lies in
/// starts at `start`: a piece ends in front of every separator and at the
/// end of the text.
pub open spec fn pieces(bytes: Seq<u8>, start: int, at: int) -> Seq<TextRange>
    decreases bytes.len() - at,
{
    if at >= bytes.len() {
        seq![TextRange { start: start as usize, end: bytes.len() as usize }]
    } else if bytes[at] == SEPARATOR {
        seq![TextRange { start: start as usize, end: at as usize }] + pieces(bytes, at + 1, at + 1)
    } else {
        pieces(bytes, start, at + 1)
    }
}

/// The components of a text: its pieces, but for an empty piece at the end.
pub open spec fn components(bytes: Seq<u8>) -> Seq<TextRange> {
    let all = pieces(bytes, 0, 0);
    if all.len() > 0 && all.last().start == all.last().end {
        all.drop_last()
    } else {
        all
    }
}

/// The greatest multiple of `multiple` that is not above `number`; the
/// number itself where `multiple` is zero.
pub open spec fn rounded_down(number: int, multiple: int) -> int {
    if multiple == 0 {
        number
    } else {
        number - number % multiple
    }
}

/// The `v`-th point of a text: its first component is x, its second is z
/// and its third is y.
pub open spec fn vertex_at(parts: Seq<TextRange>, v: int) -> VertexText {
    VertexText { x: parts[3 * v], y: parts[3 * v + 2], z: parts[3 * v + 1] }
}

/// The points of a text: as many as it has whole groups of three
/// components.
pub open spec fn vertices_of(bytes: Seq<u8>) -> Seq<VertexText> {
    Seq::new(
        (components(bytes).len() / 3) as nat,
        |v: int| vertex_at(components(bytes), v),
    )
}

/// What was found of the file that says whether new data is ready.
pub enum MutexFile {
    /// The file could not be opened.
    Missing,
    /// The file could not be read.
    Unreadable,
    /// What the file holds.
    Contents(String),
}

/// What to do after a look at the file that says whether new data is ready.
#[derive(Clone, Copy, Debug, PartialEq, Eq, Structural)]
pub enum PollStep {
    /// The program is closing: stop for good.
    Quit,
    /// The file is missing: say so and look again at once.
    Retry,
    /// The file cannot be read: give this round up.
    GiveUp,
    /// No new data yet: look again after so many milliseconds.
    Sleep(u64),
    /// New data is ready: read the data file, mark the data as taken over,
    /// hand the data on and move on to the next pair of files.
    Take,
}

/// What a look at the file that says whether new data is ready leads to.
pub open spec fn poll_step(quit: bool, mutex_file: MutexFile, sleep_duration_ms: u64) -> PollStep {
    if quit {
        PollStep::Quit
    } else {
        match mutex_file {
            MutexFile::Missing => PollStep::Retry,
            MutexFile::Unreadable => PollStep::GiveUp,
            MutexFile::Contents(text) => if text@ == "taken"@ {
                PollStep::Take
            } else {
                PollStep::Sleep(sleep_duration_ms)
            },
        }
    }
}

/// Watches the files of the update channels, one pair after the other.
pub struct IPCContributor {
    files: Vec<IPCFiles>,
    file_index: usize,
    sleep_duration_ms: u64,
}

/// The mathematical model of the watcher.
pub struct IPCContributorView {
    pub files: Seq<IPCFilesView>,
    pub file_index: int,
    pub sleep_duration_ms: u64,
}

impl IPCContributorView {
    /// There is a pair of files, and one of the pairs has its turn.
    pub open spec fn wf(self) -> bool {
        0 <= self.file_index < self.files.len()
    }

    /// The watcher once the data of the current pair was handed on: the
    /// next pair has its turn, and after the last the first.
    pub open spec fn advanced(self) -> IPCContributorView {
        IPCContributorView {
            file_index: (self.file_index + 1) % (self.files.len() as int),
            ..self
        }
    }
}

impl View for IPCContributor {
    type V = IPCContributorView;

    closed spec fn view(&self) -> IPCContributorView {
        IPCContributorView {
            files: Seq::new(self.files@.len(), |i: int| self.files@[i]@),
            file_index: self.file_index as int,
            sleep_duration_ms: self.sleep_duration_ms,
        }
    }
}

impl IPCContributor {
    pub open spec fn wf(&self) -> bool {
        self@.wf()
    }

    /// A watcher of the given pairs of files that starts with the first
    /// pair and waits `sleep_duration_ms` milliseconds between two looks.
    pub fn new(ipc_files: Vec<IPCFiles>, sleep_duration_ms: u64) -> (watcher: IPCContributor)
        ensures
            watcher@ == (IPCContributorView {
                files: Seq::new(ipc_files@.len(), |i: int| ipc_files@[i]@),
                file_index: 0,
                sleep_duration_ms,
            }),
            watcher.wf() <==> ipc_files@.len() > 0,
    {
        IPCContributor { files: ipc_files, file_index: 0, sleep_duration_ms }
    }

    /// The pair of files whose turn it is.
    pub fn current_files(&self) -> (files: &IPCFiles)
        requires
            self.wf(),
        ensures
            files@ == self@.files[self@.file_index],
    {
        &self.files[self.file_index]
    }

    /// Decides what to do after a look at the mutex file of the current
    /// pair. New data is ready when the file holds the word `taken`.
    pub fn read_rendering_data(&self, quit_thread: bool, mutex_file: &MutexFile) -> (step: PollStep)
        ensures
            step == poll_step(quit_thread, *mutex_file, self@.sleep_duration_ms),
    {
        if quit_thread {
            return PollStep::Quit;
        }
        match mutex_file {
            MutexFile::Missing => PollStep::Retry,
            MutexFile::Unreadable => PollStep::GiveUp,
            MutexFile::Contents(text) => {
                let taken: String = String::from_str("taken");
                if *text == taken {
                    PollStep::Take
                } else {
                    PollStep::Sleep(self.sleep_duration_ms)
                }
            },
        }
    }

    /// Moves on to the next pair of files, and from the last to the first.
    pub fn advance(&mut self)
        requires
            old(self).wf(),
        ensures
            final(self)@ == old(self)@.advanced(),
            final(self).wf(),
    {
        let number: usize = self.files.len();
        self.file_index = (self.file_index + 1) % number;
    }

    /// Finds the points in the text of a data file.
    pub fn parse_read_data(read_content: &String) -> (cloud: CloudText)
        ensures
            cloud.components == components(encode_utf8(read_content@)).len(),
            cloud.vertices@ == vertices_of(encode_utf8(read_content@)),
    {
        let bytes: &[u8] = read_content.as_str().as_bytes();
        let ghost text = encode_utf8(read_content@);
        let mut split_content: Vec<TextRange> = Vec::new();
        let mut start: usize = 0;
        let mut at: usize = 0;
        while at < bytes.len()
            invariant
                bytes@ == text,
                start <= at <= text.len(),
                split_content@ + pieces(text, start as int, at as int) == pieces(text, 0, 0),
            decreases text.len() - at,
        {
            if bytes[at] == SEPARATOR {
                let ghost before = split_content@;
                split_content.push(TextRange { start, end: at });
                assert(split_content@ + pieces(text, at + 1, at + 1) =~= before + pieces(
                    text,
                    start as int,
                    at as int,
                ));
                start = at + 1;
            }
            at = at + 1;
        }
        let ghost before = split_content@;
        split_content.push(TextRange { start, end: at });
        assert(split_content@ =~= before + pieces(text, start as int, at as int));
        if start == at {
            split_content.pop();
        }
        assert(split_content@ =~= components(text));
        let number_vertices: usize = IPCContributor::round_number_down(split_content.len(), 3);
        let mut parsed_vertices: Vec<VertexText> = Vec::new();
        let mut v: usize = 0;
        while v < number_vertices / 3
            invariant
                v <= number_vertices / 3,
                number_vertices <= split_content@.len(),
                split_content@ == components(text),
                parsed_vertices@ =~= Seq::new(v as nat, |i: int| vertex_at(components(text), i)),
            decreases number_vertices / 3 - v,
        {
            parsed_vertices.push(
                VertexText {
                    x: split_content[v * 3],
                    y: split_content[v * 3 + 2],
                    z: split_content[v * 3 + 1],
                },
            );
            v = v + 1;
        }
        CloudText { vertices: parsed_vertices, components: split_content.len() }
    }

    /// Rounds a number down to a multiple of another.
    pub fn round_number_down(number_to_round: usize, multiple: usize) -> (rounded: usize)
        ensures
            rounded == rounded_down(number_to_round as int, multiple as int),
    {
        if multiple == 0 {
            return number_to_round;
        }
        let remainder: usize = number_to_round % multiple;
        proof {
            vstd::arithmetic::div_mod::lemma_fundamental_div_mod(
                number_to_round as int,
                multiple as int,
            );
            vstd::arithmetic::div_mod::lemma_div_pos_is_pos(number_to_round as int, multiple as int);
            assert(multiple * (number_to_round as int / multiple as int) >= 0) by (nonlinear_arith)
                requires
                    multiple > 0,
                    number_to_round as int / multiple as int >= 0,
            ;
        }
        if remainder == 0 {
            return number_to_round;
        }
        number_to_round - remainder
    }
}

/// Rounding down gives a multiple that is less than one multiple below the
/// number, and changes no number that is a multiple already.
pub proof fn lemma_rounded_down(number: int, multiple: int)
    requires
        0 <= number,
        0 < multiple,
    ensures
        rounded_down(number, multiple) % multiple == 0,
        number - multiple < rounded_down(number, multiple) <= number,
        number % multiple == 0 ==> rounded_down(number, multiple) == number,
{
    vstd::arithmetic::div_mod::lemma_fundamental_div_mod(number, multiple);
    vstd::arithmetic::div_mod::lemma_mod_multiples_basic(number / multiple, multiple);
    assert(number - number % multiple == multiple * (number / multiple));
    assert((number / multiple) * multiple == multiple * (number / multiple)) by (nonlinear_arith);
}

/// What the pieces of a text are: they lie one behind the other with one
/// separator between each two, the first starts where the text starts, the
/// last ends where the text ends, and none holds a separator.
pub proof fn lemma_pieces(bytes: Seq<u8>, start: int, at: int)
    requires
        0 <= start <= at <= bytes.len() <= usize::MAX,
        forall|j: int| start <= j < at ==> bytes[j] != SEPARATOR,
    ensures
        pieces(bytes, start, at).len() >= 1,
        pieces(bytes, start, at)[0].start == start,
        pieces(bytes, start, at).last().end == bytes.len(),
        forall|i: int|
            0 <= i < pieces(bytes, start, at).len() ==> (#[trigger] pieces(
                bytes,
                start,
                at,
            )[i]).start <= pieces(bytes, start, at)[i].end <= bytes.len(),
        forall|i: int, j: int|
            0 <= i < pieces(bytes, start, at).len() && (#[trigger] pieces(bytes, start, at)[i]).start
                <= j < pieces(bytes, start, at)[i].end ==> #[trigger] bytes[j] != SEPARATOR,
        forall|i: int|
            0 <= i < pieces(bytes, start, at).len() - 1 ==> bytes[(#[trigger] pieces(
                bytes,
                start,
                at,
            )[i]).end as int] == SEPARATOR && pieces(bytes, start, at)[i + 1].start == pieces(
                bytes,
                start,
                at,
            )[i].end + 1,
    decreases bytes.len() - at,
{
    let all = pieces(bytes, start, at);
    if at >= bytes.len() {
    } else if bytes[at] == SEPARATOR {
        lemma_pieces(bytes, at + 1, at + 1);
        let rest = pieces(bytes, at + 1, at + 1);
        let head = TextRange { start: start as usize, end: at as usize };
        assert(all =~= seq![head] + rest);
        assert forall|i: int| 0 <= i < all.len() implies (#[trigger] all[i]).start <= all[i].end
            <= bytes.len() by {
            if i > 0 {
                assert(all[i] == rest[i - 1]);
            }
        }
        assert forall|i: int, j: int|
            0 <= i < all.len() && (#[trigger] all[i]).start <= j < all[i].end implies #[trigger] bytes[j]
            != SEPARATOR by {
            if i > 0 {
                assert(all[i] == rest[i - 1]);
            }
        }
        assert forall|i: int| 0 <= i < all.len() - 1 implies bytes[(#[trigger] all[i]).end as int]
            == SEPARATOR && all[i + 1].start == all[i].end + 1 by {
            assert(all[i + 1] == rest[i]);
            if i > 0 {
                assert(all[i] == rest[i - 1]);
            }
        }
        assert(all.last() == rest.last());
    } else {
        lemma_pieces(bytes, start, at + 1);
    }
}

} // verus!
