//! The program's arguments: what the command line held, and what is made of it.

use vstd::prelude::*;
use vstd::string::StrSliceExecFns;

verus! {

/// The files of one channel through which point-cloud updates arrive.
#[derive(Clone)]
pub struct IPCFiles {
    pub mutex_file_names: String,
    pub data_file_names: String,
}

/// The arguments of the program, validated.
pub struct Args {
    pub initial_data_model: Option<String>,
    pub ipc_files: Vec<IPCFiles>,
    pub display_lidar_pos: bool,
    pub sleep_duration_ms: u64,
}

/// The values that the command line gave to each argument, as text.
pub struct ArgMatches {
    pub render_initial_point_cloud: Option<String>,
    pub data_files: Option<Vec<String>>,
    pub mutex_files: Option<Vec<String>>,
    pub display_lidar_pos: Option<String>,
    pub sleep_duration: Option<String>,
}

/// Why a command line is refused.
#[derive(Clone, Copy, Debug, PartialEq, Eq, Structural)]
pub enum ArgsError {
    /// Data files and mutex files were given in different numbers.
    FileCountMismatch,
    /// Neither update files nor an initial point cloud were given.
    NoWorkSpecified,
    /// The value of the lidar position option is no unsigned decimal number.
    InvalidDisplayLidarPos,
    /// The value of the sleep duration option is no unsigned decimal number.
    InvalidSleepDuration,
}

/// An `IPCFiles` value as a pair of texts: mutex file, data file.
pub struct IPCFilesView {
    pub mutex_file_names: Seq<char>,
    pub data_file_names: Seq<char>,
}

/// An `Args` value with its texts as sequences of characters.
pub struct ArgsView {
    pub initial_data_model: Option<Seq<char>>,
    pub ipc_files: Seq<IPCFilesView>,
    pub display_lidar_pos: bool,
    pub sleep_duration_ms: u64,
}

/// An `ArgMatches` value with its texts as sequences of characters.
pub struct ArgMatchesView {
    pub render_initial_point_cloud: Option<Seq<char>>,
    pub data_files: Option<Seq<Seq<char>>>,
    pub mutex_files: Option<Seq<Seq<char>>>,
    pub display_lidar_pos: Option<Seq<char>>,
    pub sleep_duration: Option<Seq<char>>,
}

pub open spec fn text_of(s: Option<String>) -> Option<Seq<char>> {
    match s {
        Some(t) => Some(t@),
        None => None,
    }
}

pub open spec fn texts_of(v: Option<Vec<String>>) -> Option<Seq<Seq<char>>> {
    match v {
        Some(t) => Some(Seq::new(t@.len(), |i: int| t@[i]@)),
        None => None,
    }
}

impl View for IPCFiles {
    type V = IPCFilesView;

    open spec fn view(&self) -> IPCFilesView {
        IPCFilesView {
            mutex_file_names: self.mutex_file_names@,
            data_file_names: self.data_file_names@,
        }
    }
}

impl View for Args {
    type V = ArgsView;

    open spec fn view(&self) -> ArgsView {
        ArgsView {
            initial_data_model: text_of(self.initial_data_model),
            ipc_files: Seq::new(self.ipc_files@.len(), |i: int| self.ipc_files@[i]@),
            display_lidar_pos: self.display_lidar_pos,
            sleep_duration_ms: self.sleep_duration_ms,
        }
    }
}

impl View for ArgMatches {
    type V = ArgMatchesView;

    open spec fn view(&self) -> ArgMatchesView {
        ArgMatchesView {
            render_initial_point_cloud: text_of(self.render_initial_point_cloud),
            data_files: texts_of(self.data_files),
            mutex_files: texts_of(self.mutex_files),
            display_lidar_pos: text_of(self.display_lidar_pos),
            sleep_duration: text_of(self.sleep_duration),
        }
    }
}

pub open spec fn is_decimal_digit(c: char) -> bool {
    '0' <= c && c <= '9'
}

/// The number that a run of decimal digits writes.
pub open spec fn digits_value(s: Seq<char>) -> nat
    decreases s.len(),
{
    if s.len() == 0 {
        0
    } else {
        (digits_value(s.drop_last()) * 10 + (s.last() as u32 - '0' as u32)) as nat
    }
}

/// Whether a text holds decimal digits only.
pub open spec fn all_decimal_digits(s: Seq<char>) -> bool {
    forall|i: int| 0 <= i < s.len() ==> is_decimal_digit(#[trigger] s[i])
}

/// A text without the `+` that may stand in front of a number.
pub open spec fn without_plus_sign(s: Seq<char>) -> Seq<char> {
    if s.len() > 0 && s[0] == '+' {
        s.drop_first()
    } else {
        s
    }
}

/// The unsigned number that a text writes: an optional `+`, then one or more
/// decimal digits, of a value that fits 64 bits. Any other text writes none.
pub open spec fn unsigned_decimal(s: Seq<char>) -> Option<u64> {
    let digits = without_plus_sign(s);
    if digits.len() > 0 && all_decimal_digits(digits) && digits_value(digits) <= u64::MAX {
        Some(digits_value(digits) as u64)
    } else {
        None
    }
}

/// The update channels that data files and mutex files, paired in order, make.
pub open spec fn paired_files(data: Seq<Seq<char>>, mutex: Seq<Seq<char>>) -> Seq<IPCFilesView> {
    Seq::new(
        data.len(),
        |i: int| IPCFilesView { mutex_file_names: mutex[i], data_file_names: data[i] },
    )
}

/// The rule by which a command line fills in arguments, or is refused.
///
/// Files are paired when both lists are present, and must then be equally
/// many; otherwise an initial point cloud must be named. The two numeric
/// options, where present, must be unsigned decimal numbers; the lidar
/// option is on for any number but zero.
pub open spec fn validated(matches: ArgMatchesView, args: ArgsView) -> Result<ArgsView, ArgsError> {
    let both = matches.data_files is Some && matches.mutex_files is Some;
    if both && matches.data_files->0.len() != matches.mutex_files->0.len() {
        Err(ArgsError::FileCountMismatch)
    } else if !both && matches.render_initial_point_cloud is None {
        Err(ArgsError::NoWorkSpecified)
    } else if matches.display_lidar_pos is Some && unsigned_decimal(matches.display_lidar_pos->0)
        is None {
        Err(ArgsError::InvalidDisplayLidarPos)
    } else if matches.sleep_duration is Some && unsigned_decimal(matches.sleep_duration->0)
        is None {
        Err(ArgsError::InvalidSleepDuration)
    } else {
        Ok(
            ArgsView {
                initial_data_model: matches.render_initial_point_cloud,
                ipc_files: if both {
                    args.ipc_files + paired_files(matches.data_files->0, matches.mutex_files->0)
                } else {
                    args.ipc_files
                },
                display_lidar_pos: if matches.display_lidar_pos is Some {
                    unsigned_decimal(matches.display_lidar_pos->0)->0 != 0
                } else {
                    args.display_lidar_pos
                },
                sleep_duration_ms: if matches.sleep_duration is Some {
                    unsigned_decimal(matches.sleep_duration->0)->0
                } else {
                    args.sleep_duration_ms
                },
            },
        )
    }
}

/// The arguments before the command line is looked at: no files, the lidar
/// position not shown, a quarter of a second between polls.
pub open spec fn default_args() -> ArgsView {
    ArgsView {
        initial_data_model: None,
        ipc_files: Seq::empty(),
        display_lidar_pos: false,
        sleep_duration_ms: 250,
    }
}

proof fn lemma_digits_value_prefix(s: Seq<char>, k: int)
    requires
        0 <= k <= s.len(),
        all_decimal_digits(s),
    ensures
        digits_value(s.take(k)) <= digits_value(s),
    decreases s.len() - k,
{
    if k == s.len() {
        assert(s.take(k) =~= s);
    } else {
        lemma_digits_value_prefix(s, k + 1);
        assert(s.take(k + 1).drop_last() =~= s.take(k));
        assert(is_decimal_digit(s[k]));
    }
}

/// Reads an unsigned decimal number.
fn parse_unsigned(text: &str) -> (value: Option<u64>)
    ensures
        value == unsigned_decimal(text@),
{
    let len: usize = text.unicode_len();
    let start: usize = if len > 0 && text.get_char(0) == '+' {
        1
    } else {
        0
    };
    let ghost digits = without_plus_sign(text@);
    if start == len {
        return None;
    }
    let mut value: u64 = 0;
    let mut i: usize = start;
    while i < len
        invariant
            start <= i <= len,
            len == text@.len(),
            digits == without_plus_sign(text@),
            digits.len() == len - start,
            digits.len() > 0,
            forall|j: int| 0 <= j < digits.len() ==> digits[j] == text@[j + start],
            forall|j: int| 0 <= j < i - start ==> is_decimal_digit(#[trigger] digits[j]),
            value == digits_value(digits.take(i - start)),
        decreases len - i,
    {
        let c: char = text.get_char(i);
        if !('0' <= c && c <= '9') {
            assert(!is_decimal_digit(digits[i - start]));
            return None;
        }
        let digit: u64 = (c as u32 - '0' as u32) as u64;
        proof {
            assert(digits.take(i - start + 1).drop_last() =~= digits.take(i - start));
            assert(digits.take(i - start + 1).last() == c);
        }
        if value > (u64::MAX - digit) / 10 {
            proof {
                assert(digits_value(digits.take(i - start + 1)) > u64::MAX);
                if all_decimal_digits(digits) {
                    lemma_digits_value_prefix(digits, i - start + 1);
                }
            }
            return None;
        }
        value = value * 10 + digit;
        i = i + 1;
    }
    proof {
        assert(digits.take(len - start) =~= digits);
    }
    Some(value)
}

fn clone_text(text: &Option<String>) -> (copy: Option<String>)
    ensures
        text_of(copy) == text_of(*text),
{
    match text {
        Some(t) => Some(t.clone()),
        None => None,
    }
}

impl Args {
    /// Makes the arguments of the program from what the command line held.
    pub fn parse_args(matches: &ArgMatches) -> (parsed: Result<Args, ArgsError>)
        ensures
            match validated(matches@, default_args()) {
                Ok(args) => parsed is Ok && parsed->Ok_0@ == args,
                Err(error) => parsed == Err::<Args, ArgsError>(error),
            },
    {
        let mut args = Args {
            initial_data_model: None,
            ipc_files: Vec::new(),
            display_lidar_pos: false,
            sleep_duration_ms: 250,
        };
        assert(args@.ipc_files =~= default_args().ipc_files);
        match Args::extract_validate_input(matches, &mut args) {
            Ok(()) => Ok(args),
            Err(error) => Err(error),
        }
    }

    /// Whether the point cloud is updated through files while the program
    /// runs, rather than shown as it was first loaded.
    pub fn using_file_ipc(&self) -> (using: bool)
        ensures
            using == (self@.ipc_files.len() > 0),
    {
        self.ipc_files.len() > 0
    }

    /// Fills `args` in from what the command line held, or refuses the
    /// command line and leaves `args` as it was.
    pub fn extract_validate_input(matches: &ArgMatches, args: &mut Args) -> (outcome: Result<
        (),
        ArgsError,
    >)
        ensures
            match validated(matches@, old(args)@) {
                Ok(filled) => outcome is Ok && final(args)@ == filled,
                Err(error) => outcome == Err::<(), ArgsError>(error) && *final(args) == *old(args),
            },
    {
        let mut new_files: Vec<IPCFiles> = Vec::new();
        match (&matches.data_files, &matches.mutex_files) {
            (Some(ipc), Some(mutex)) => {
                if ipc.len() != mutex.len() {
                    return Err(ArgsError::FileCountMismatch);
                }
                let mut i: usize = 0;
                while i < ipc.len()
                    invariant
                        i <= ipc.len(),
                        ipc.len() == mutex.len(),
                        new_files@.len() == i,
                        forall|j: int|
                            0 <= j < i ==> (#[trigger] new_files@[j])@ == (IPCFilesView {
                                mutex_file_names: mutex@[j]@,
                                data_file_names: ipc@[j]@,
                            }),
                    decreases ipc.len() - i,
                {
                    new_files.push(
                        IPCFiles {
                            mutex_file_names: mutex[i].clone(),
                            data_file_names: ipc[i].clone(),
                        },
                    );
                    i = i + 1;
                }
            },
            _ => {
                if matches.render_initial_point_cloud.is_none() {
                    return Err(ArgsError::NoWorkSpecified);
                }
            },
        }
        let display_lidar_pos: bool = match &matches.display_lidar_pos {
            Some(text) => match parse_unsigned(text.as_str()) {
                Some(number) => number != 0,
                None => {
                    return Err(ArgsError::InvalidDisplayLidarPos);
                },
            },
            None => args.display_lidar_pos,
        };
        let sleep_duration_ms: u64 = match &matches.sleep_duration {
            Some(text) => match parse_unsigned(text.as_str()) {
                Some(number) => number,
                None => {
                    return Err(ArgsError::InvalidSleepDuration);
                },
            },
            None => args.sleep_duration_ms,
        };
        let ghost before = args@;
        let ghost added = new_files@;
        args.initial_data_model = clone_text(&matches.render_initial_point_cloud);
        args.ipc_files.append(&mut new_files);
        args.display_lidar_pos = display_lidar_pos;
        args.sleep_duration_ms = sleep_duration_ms;
        proof {
            let both = matches@.data_files is Some && matches@.mutex_files is Some;
            if both {
                assert(args@.ipc_files =~= before.ipc_files + paired_files(
                    matches@.data_files->0,
                    matches@.mutex_files->0,
                ));
            } else {
                assert(added.len() == 0);
                assert(args@.ipc_files =~= before.ipc_files);
            }
        }
        Ok(())
    }
}

} // verus!
