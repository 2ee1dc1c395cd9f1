//! What is made of an update of the point cloud and of a run of the
//! cluster detection.

use vstd::prelude::*;
use vstd::string::StringExecFns;
use vstd::utf8::encode_utf8;
use crate::ipc_logic::ipc_receiver::TextRange;
use crate::rendering::cluster_colour::{colour_of_cluster, ClusterColour, ColourChoice};
use crate::rendering::scene_renderer::{InstanceUpload, ModelId, SceneRenderer, UploadInformation};

verus! {

/// What came through the channel from the watcher of the update files.
pub enum Received {
    /// A point cloud of so many points, read from the file of that name.
    /// Where the place of the lidar is shown, the first point is that place.
    Update { points: usize, file_name: String },
    /// The text of an update file was no point cloud, for the reason given.
    ParseFailure(String),
    /// Nothing came.
    Empty,
    /// The channel failed, for the reason given.
    Disconnected(String),
}

/// What an update changed.
pub struct UploadResult {
    /// The file that the point cloud now shown was read from.
    pub updated_lidar_file: Option<String>,
    /// Number of points of the cloud, the place of the lidar not counted.
    pub num_points: Option<usize>,
    /// Which of the points read is the place of the lidar, where it is one.
    pub lidar_pos: Option<usize>,
    pub cluster_error_message: String,
}

/// How an update went.
pub enum IPCUpdateResult {
    Success(UploadResult),
    Error(String),
    NoChange,
}

/// The instance data that goes to the device for an update: the points
/// from the `first_point`-th on, each with the default colour.
pub struct CloudUpload {
    pub first_point: usize,
    pub upload: InstanceUpload,
}

/// How a run of the cluster detection ended.
pub enum ClusterRun {
    /// It ran and ended with this exit code, if it has one, and this text
    /// on its error output.
    Exited { code: Option<i32>, stderr: String },
    /// It could not be started, for the reason given.
    NotStarted(String),
}

/// What was found of the file with the result of a cluster detection.
pub enum ClusterOutput {
    /// The file could not be opened, for the reason given.
    Unopened(String),
    /// The file could not be read.
    Unreadable,
    /// What the file holds.
    Contents(String),
}

/// Number of points that an update shows: all that were read, but for the
/// place of the lidar where that comes first.
pub open spec fn shown_points(points: usize, display_lidar_pos: bool) -> nat {
    if display_lidar_pos {
        (points - 1) as nat
    } else {
        points as nat
    }
}

/// The batch that stores an update: a translation and a colour for every
/// point shown, for the model that stands for a point.
pub open spec fn cloud_batch(
    points: usize,
    display_lidar_pos: bool,
    point_model_id: ModelId,
) -> Seq<UploadInformation> {
    seq![
        UploadInformation {
            model_id: point_model_id,
            instance_translations: Some(shown_points(points, display_lidar_pos) as usize),
            instance_colours: Some(shown_points(points, display_lidar_pos) as usize),
        },
    ]
}

/// Why a run of the cluster detection failed, if it failed. It succeeded
/// only if it ran and ended with the exit code 0. Any other exit code is a
/// failure that is reported with what the program wrote to its error
/// output; a run without an exit code and a run that could not be started
/// are failures too.
pub open spec fn cluster_run_error(run: ClusterRun) -> Option<Seq<char>> {
    match run {
        ClusterRun::Exited { code: Some(code), stderr } => if code == 0 {
            None
        } else {
            Some("Error running cluster program :"@ + stderr@)
        },
        ClusterRun::Exited { code: None, stderr } => Some(
            "Failed to get result of cluster detection program"@,
        ),
        ClusterRun::NotStarted(reason) => Some("Error with cluster detection program: "@ + reason@),
    }
}

/// Number of bytes of the white space character that starts at `at`; zero
/// where none starts there.
pub open spec fn white_space_at(bytes: Seq<u8>, at: int) -> int {
    if at < 0 || at >= bytes.len() {
        0
    } else if (9 <= bytes[at] <= 13) || bytes[at] == 32 {
        1
    } else if at + 1 < bytes.len() && bytes[at] == 0xC2 && (bytes[at + 1] == 0x85 || bytes[at + 1]
        == 0xA0) {
        2
    } else if at + 2 < bytes.len() && ((bytes[at] == 0xE1 && bytes[at + 1] == 0x9A && bytes[at + 2]
        == 0x80) || (bytes[at] == 0xE2 && bytes[at + 1] == 0x80 && (0x80 <= bytes[at + 2] <= 0x8A
        || bytes[at + 2] == 0xA8 || bytes[at + 2] == 0xA9 || bytes[at + 2] == 0xAF)) || (bytes[at]
        == 0xE2 && bytes[at + 1] == 0x81 && bytes[at + 2] == 0x9F) || (bytes[at] == 0xE3
        && bytes[at + 1] == 0x80 && bytes[at + 2] == 0x80)) {
        3
    } else {
        0
    }
}

/// The words of a text from `at` on, where the word that `at` lies in, if
/// it lies in one, starts at `start`: a word is a run of bytes without
/// white space that cannot be made longer.
pub open spec fn words(bytes: Seq<u8>, start: int, at: int) -> Seq<TextRange>
    decreases bytes.len() - at,
{
    let word = if start < at {
        seq![TextRange { start: start as usize, end: at as usize }]
    } else {
        Seq::<TextRange>::empty()
    };
    if at >= bytes.len() {
        word
    } else if white_space_at(bytes, at) > 0 {
        word + words(bytes, at + white_space_at(bytes, at), at + white_space_at(bytes, at))
    } else {
        words(bytes, start, at + 1)
    }
}

pub open spec fn is_digit_byte(byte: u8) -> bool {
    48 <= byte <= 57
}

/// Whether a text holds decimal digits only.
pub open spec fn all_digit_bytes(digits: Seq<u8>) -> bool {
    forall|i: int| 0 <= i < digits.len() ==> is_digit_byte(#[trigger] digits[i])
}

/// The number that a run of decimal digits writes.
pub open spec fn digits_number(digits: Seq<u8>) -> nat
    decreases digits.len(),
{
    if digits.len() == 0 {
        0
    } else {
        (digits_number(digits.drop_last()) * 10 + (digits.last() - 48)) as nat
    }
}

/// Whether a word starts with a minus sign.
pub open spec fn is_negative(word: Seq<u8>) -> bool {
    word.len() > 0 && word[0] == 45
}

/// A word without the sign that may stand in front of a number.
pub open spec fn without_sign(word: Seq<u8>) -> Seq<u8> {
    if word.len() > 0 && (word[0] == 45 || word[0] == 43) {
        word.drop_first()
    } else {
        word
    }
}

/// The number that a word writes: an optional sign, then one or more
/// decimal digits, of a value that a signed size holds. Any other word
/// writes none.
pub open spec fn signed_decimal(word: Seq<u8>) -> Option<isize> {
    let digits = without_sign(word);
    let value: int = if is_negative(word) {
        -digits_number(digits)
    } else {
        digits_number(digits) as int
    };
    if digits.len() > 0 && all_digit_bytes(digits) && isize::MIN <= value <= isize::MAX {
        Some(value as isize)
    } else {
        None
    }
}

/// The number of the cluster that a word of the result names: what the
/// word writes, and -1, for a point of no cluster, where it writes nothing.
pub open spec fn cluster_of(word: Seq<u8>) -> int {
    match signed_decimal(word) {
        Some(cluster) => cluster as int,
        None => -1,
    }
}

/// The colour of the point that a word of the result stands for. Points
/// of no cluster have the first colour of the palette, the points of
/// cluster 0 the second, and so on.
pub open spec fn colour_of_word(bytes: Seq<u8>, word: TextRange, colours: nat) -> ColourChoice {
    colour_of_cluster(colours, cluster_of(bytes.subrange(word.start as int, word.end as int)) + 1)
}

/// The colours that the result of a cluster detection gives to the points,
/// in the order of the points.
pub open spec fn cluster_colours(bytes: Seq<u8>, colours: nat) -> Seq<ColourChoice> {
    Seq::new(
        words(bytes, 0, 0).len(),
        |i: int| colour_of_word(bytes, words(bytes, 0, 0)[i], colours),
    )
}

proof fn lemma_digits_number_prefix(digits: Seq<u8>, k: int)
    requires
        0 <= k <= digits.len(),
        all_digit_bytes(digits),
    ensures
        digits_number(digits.take(k)) <= digits_number(digits),
    decreases digits.len() - k,
{
    if k == digits.len() {
        assert(digits.take(k) =~= digits);
    } else {
        lemma_digits_number_prefix(digits, k + 1);
        assert(digits.take(k + 1).drop_last() =~= digits.take(k));
        assert(is_digit_byte(digits[k]));
    }
}

/// Number of bytes of the white space character that starts at `at`.
fn white_space(bytes: &[u8], at: usize) -> (length: usize)
    requires
        at < bytes@.len(),
    ensures
        length == white_space_at(bytes@, at as int),
        at + length <= bytes@.len(),
{
    let first: u8 = bytes[at];
    if (9 <= first && first <= 13) || first == 32 {
        return 1;
    }
    if at + 1 < bytes.len() && first == 0xC2 {
        let second: u8 = bytes[at + 1];
        if second == 0x85 || second == 0xA0 {
            return 2;
        }
    }
    if bytes.len() >= 3 && at < bytes.len() - 2 {
        let second: u8 = bytes[at + 1];
        let third: u8 = bytes[at + 2];
        if first == 0xE1 && second == 0x9A && third == 0x80 {
            return 3;
        }
        if first == 0xE2 && second == 0x80 && ((0x80 <= third && third <= 0x8A) || third == 0xA8
            || third == 0xA9 || third == 0xAF) {
            return 3;
        }
        if first == 0xE2 && second == 0x81 && third == 0x9F {
            return 3;
        }
        if first == 0xE3 && second == 0x80 && third == 0x80 {
            return 3;
        }
    }
    0
}

/// Reads the signed decimal number that the bytes from `start` up to `end`
/// write.
fn parse_signed(bytes: &[u8], start: usize, end: usize) -> (value: Option<isize>)
    requires
        start <= end <= bytes@.len(),
    ensures
        value == signed_decimal(bytes@.subrange(start as int, end as int)),
{
    let ghost word = bytes@.subrange(start as int, end as int);
    let ghost digits = without_sign(word);
    if start == end {
        return None;
    }
    let negative: bool = bytes[start] == 45;
    let first: usize = if negative || bytes[start] == 43 {
        start + 1
    } else {
        start
    };
    assert(word[0] == bytes@[start as int]);
    if first == end {
        return None;
    }
    let limit: u64 = if negative {
        isize::MAX as u64 + 1
    } else {
        isize::MAX as u64
    };
    let mut magnitude: u64 = 0;
    let mut i: usize = first;
    while i < end
        invariant
            first <= i <= end <= bytes@.len(),
            word == bytes@.subrange(start as int, end as int),
            digits == without_sign(word),
            digits.len() == end - first,
            digits.len() > 0,
            forall|j: int| 0 <= j < digits.len() ==> digits[j] == bytes@[j + first],
            forall|j: int| 0 <= j < i - first ==> is_digit_byte(#[trigger] digits[j]),
            magnitude == digits_number(digits.take(i - first)),
            magnitude <= limit,
            limit <= isize::MAX + 1,
            negative == is_negative(word),
            limit == if negative {
                isize::MAX + 1
            } else {
                isize::MAX as int
            },
        decreases end - i,
    {
        let byte: u8 = bytes[i];
        if !(48 <= byte && byte <= 57) {
            assert(!is_digit_byte(digits[i - first]));
            return None;
        }
        let digit: u64 = (byte - 48) as u64;
        proof {
            assert(digits.take(i - first + 1).drop_last() =~= digits.take(i - first));
            assert(digits.take(i - first + 1).last() == byte);
        }
        if magnitude > (limit - digit) / 10 {
            proof {
                assert(digits_number(digits.take(i - first + 1)) > limit);
                if all_digit_bytes(digits) {
                    lemma_digits_number_prefix(digits, i - first + 1);
                }
            }
            return None;
        }
        magnitude = magnitude * 10 + digit;
        i = i + 1;
    }
    proof {
        assert(digits.take(end - first) =~= digits);
    }
    if negative {
        if magnitude == limit {
            Some(isize::MIN)
        } else {
            Some(-(magnitude as isize))
        }
    } else {
        Some(magnitude as isize)
    }
}

/// The colour of the point that the word from `start` up to `end` names.
fn colour_of_range(bytes: &[u8], start: usize, end: usize, palette: &ClusterColour) -> (colour:
    ColourChoice)
    requires
        start <= end <= bytes@.len(),
    ensures
        colour == colour_of_word(bytes@, TextRange { start, end }, palette.len()),
{
    let cluster_index: isize = match parse_signed(bytes, start, end) {
        Some(cluster) => cluster,
        None => -1,
    };
    if cluster_index < -1 {
        ColourChoice::Fallback
    } else if cluster_index == -1 {
        palette.get_colour(0)
    } else {
        palette.get_colour(cluster_index as usize + 1)
    }
}

/// Takes what came through the channel. A point cloud is stored as
/// instances of the model that stands for a point; anything else leaves
/// the scene as it is.
pub fn process_ipc_content(
    received: Received,
    buffer_group: &mut SceneRenderer,
    point_model_id: ModelId,
    display_lidar_pos: bool,
) -> (processed: (IPCUpdateResult, Option<CloudUpload>))
    requires
        old(buffer_group).wf(),
        old(buffer_group).knows(point_model_id),
        received matches Received::Update { points, .. } ==> (display_lidar_pos ==> points >= 1),
    ensures
        final(buffer_group).wf(),
        match received {
            Received::Update { points, file_name } => {
                let batch = cloud_batch(points, display_lidar_pos, point_model_id);
                &&& final(buffer_group)@ == old(buffer_group)@.after_batch(batch)
                &&& processed.0 matches IPCUpdateResult::Success(result)
                &&& result.updated_lidar_file == Some(file_name)
                &&& result.num_points == Some(shown_points(points, display_lidar_pos) as usize)
                &&& result.lidar_pos == if display_lidar_pos {
                    Some(0usize)
                } else {
                    None
                }
                &&& result.cluster_error_message@ == "Cluster program status: No Error"@
                &&& processed.1 matches Some(cloud)
                &&& cloud.first_point == points - shown_points(points, display_lidar_pos)
                &&& old(buffer_group)@.stores(batch, cloud.upload)
                &&& final(buffer_group)@.holds_batch(cloud.upload)
            },
            Received::ParseFailure(reason) => {
                &&& final(buffer_group)@ == old(buffer_group)@
                &&& processed.0 matches IPCUpdateResult::Error(message)
                &&& message@ == "Error parsing updated data: "@ + reason@
                &&& processed.1 is None
            },
            Received::Empty => {
                &&& final(buffer_group)@ == old(buffer_group)@
                &&& processed.0 is NoChange
                &&& processed.1 is None
            },
            Received::Disconnected(reason) => {
                &&& final(buffer_group)@ == old(buffer_group)@
                &&& processed.0 matches IPCUpdateResult::Error(message)
                &&& message@ == "Error in IPC communication: "@ + reason@
                &&& processed.1 is None
            },
        },
{
    match received {
        Received::Update { points, file_name } => {
            let (num_instances, lidar_pos): (usize, Option<usize>) = if display_lidar_pos {
                (points - 1, Some(0))
            } else {
                (points, None)
            };
            let starting_index: usize = points - num_instances;
            let mut info: Vec<UploadInformation> = Vec::new();
            info.push(
                UploadInformation {
                    model_id: point_model_id,
                    instance_colours: Some(num_instances),
                    instance_translations: Some(num_instances),
                },
            );
            proof {
                assert(info@ =~= cloud_batch(points, display_lidar_pos, point_model_id));
            }
            let upload = buffer_group.upload_instance_information(info);
            proof {
                assert(upload.models@ =~= seq![upload.models@[0]]);
            }
            (
                IPCUpdateResult::Success(
                    UploadResult {
                        updated_lidar_file: Some(file_name),
                        lidar_pos,
                        num_points: Some(num_instances),
                        cluster_error_message: String::from_str("Cluster program status: No Error"),
                    },
                ),
                Some(CloudUpload { first_point: starting_index, upload }),
            )
        },
        Received::ParseFailure(reason) => (
            IPCUpdateResult::Error(
                String::from_str("Error parsing updated data: ").concat(reason.as_str()),
            ),
            None,
        ),
        Received::Empty => (IPCUpdateResult::NoChange, None),
        Received::Disconnected(reason) => (
            IPCUpdateResult::Error(
                String::from_str("Error in IPC communication: ").concat(reason.as_str()),
            ),
            None,
        ),
    }
}

/// Says whether a run of the cluster detection succeeded, and why not if
/// it did not. Only a run that ended with the exit code 0 succeeded.
pub fn launch_cluster_program(run: &ClusterRun) -> (outcome: Result<(), String>)
    ensures
        match cluster_run_error(*run) {
            Some(message) => outcome is Err && outcome->Err_0@ == message,
            None => outcome is Ok,
        },
{
    match run {
        ClusterRun::Exited { code: Some(code), stderr } => {
            if *code != 0 {
                return Err(
                    String::from_str("Error running cluster program :").concat(stderr.as_str()),
                );
            }
        },
        ClusterRun::Exited { code: None, stderr: _ } => {
            return Err(String::from_str("Failed to get result of cluster detection program"));
        },
        ClusterRun::NotStarted(reason) => {
            return Err(
                String::from_str("Error with cluster detection program: ").concat(reason.as_str()),
            );
        },
    }
    Ok(())
}

/// Reads the result of a cluster detection, where the file with it could
/// be read. Returns the colour of every point.
pub fn read_cluster_output_file(output: &ClusterOutput, palette: &ClusterColour) -> (colours:
    Result<Vec<ColourChoice>, String>)
    ensures
        match *output {
            ClusterOutput::Unopened(reason) => colours is Err && colours->Err_0@
                == "Error opening cluster result file: "@ + reason@,
            ClusterOutput::Unreadable => colours is Err && colours->Err_0@
                == "Failed to read cluster result file"@,
            ClusterOutput::Contents(text) => colours is Ok && colours->Ok_0@ == cluster_colours(
                encode_utf8(text@),
                palette.len(),
            ),
        },
{
    match output {
        ClusterOutput::Unopened(reason) => Err(
            String::from_str("Error opening cluster result file: ").concat(reason.as_str()),
        ),
        ClusterOutput::Unreadable => Err(String::from_str("Failed to read cluster result file")),
        ClusterOutput::Contents(text) => Ok(colours_of_text(text, palette)),
    }
}

/// The colours that the text of a result gives to the points: the text
/// holds one number for each point, in the order of the points, separated
/// by white space.
fn colours_of_text(file_contents: &String, palette: &ClusterColour) -> (colours: Vec<ColourChoice>)
    ensures
        colours@ == cluster_colours(encode_utf8(file_contents@), palette.len()),
{
    let bytes: &[u8] = file_contents.as_str().as_bytes();
    let ghost text = encode_utf8(file_contents@);
    let ghost number = palette.len();
    let mut colours: Vec<ColourChoice> = Vec::new();
    let ghost mut found: Seq<TextRange> = Seq::empty();
    let mut start: usize = 0;
    let mut at: usize = 0;
    while at < bytes.len()
        invariant
            bytes@ == text,
            number == palette.len(),
            start <= at <= text.len(),
            found + words(text, start as int, at as int) == words(text, 0, 0),
            colours@.len() == found.len(),
            forall|i: int|
                0 <= i < found.len() ==> #[trigger] colours@[i] == colour_of_word(
                    text,
                    found[i],
                    number,
                ),
        decreases text.len() - at,
    {
        let length: usize = white_space(bytes, at);
        if length > 0 {
            if start < at {
                colours.push(colour_of_range(bytes, start, at, palette));
                proof {
                    found = found.push(TextRange { start, end: at });
                }
            }
            proof {
                assert(found + words(text, at + length, at + length) =~= words(text, 0, 0));
            }
            at = at + length;
            start = at;
        } else {
            at = at + 1;
        }
    }
    if start < at {
        colours.push(colour_of_range(bytes, start, at, palette));
        proof {
            found = found.push(TextRange { start, end: at });
        }
    }
    proof {
        assert(found =~= words(text, 0, 0));
        assert(colours@ =~= cluster_colours(text, number));
    }
    colours
}

} // verus!
