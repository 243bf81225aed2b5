//! The settings of a copy run, as they are read from their texts.

use crate::size::{block_range_of_text, SizeError, SizeFault};
use crate::text::same_text;
use vstd::prelude::*;
use vstd::string::*;

verus! {

/// How much a run reports while it copies.
#[derive(Debug, Clone, Copy, PartialEq, Eq, Structural)]
pub enum StatusLevel {
    /// Nothing at all, not even the closing summary.
    Quiet,
    /// A running byte total, and the closing summary.
    Noxfer,
    /// A line with total and throughput once a second.
    Progress,
    /// The coverage bitmap with total and throughput once a second.
    BitArray,
}

/// The settings as their texts give them, before any of them is read.
#[derive(Debug)]
pub struct Args {
    /// Where the bytes come from; standard input where absent.
    pub input: Option<String>,
    /// Where the bytes go; standard output where absent.
    pub output: Option<String>,
    /// The block size, one size text or a range of two.
    pub bs: String,
    /// The number of blocks after which the run stops.
    pub count: Option<u64>,
    /// The number of blocks of the source to pass over before the first read.
    pub skip: Option<u64>,
    /// Carried along and not used by the run.
    pub seek: Option<u64>,
    /// The throughput limit in bytes per second, as a size text.
    pub speed: Option<String>,
    /// The conversion flags; `noerror` and `sync` are known.
    pub conv: Vec<String>,
    /// The name of the status level.
    pub status: Option<String>,
}

/// Why settings were refused, as contracts speak of it.
pub enum ConfigFault {
    /// A size text could not be read.
    Size(SizeFault),
    /// The lower end of a block size range is above its upper end; both ends
    /// are held as written.
    InvalidRange { min: Seq<char>, max: Seq<char> },
    /// The block size is zero.
    ZeroBlockSize,
    /// The status name is not one of the four known ones.
    InvalidStatus(Seq<char>),
}

/// Why settings were refused.
#[derive(Debug)]
pub enum ConfigError {
    /// A size text could not be read.
    Size(SizeError),
    /// The lower end of a block size range is above its upper end; both ends
    /// are held as written.
    InvalidRange { min: String, max: String },
    /// The block size is zero.
    ZeroBlockSize,
    /// The status name is not one of the four known ones.
    InvalidStatus(String),
}

impl View for ConfigError {
    type V = ConfigFault;

    open spec fn view(&self) -> ConfigFault {
        match self {
            ConfigError::Size(e) => ConfigFault::Size(e@),
            ConfigError::InvalidRange { min, max } => ConfigFault::InvalidRange {
                min: min@,
                max: max@,
            },
            ConfigError::ZeroBlockSize => ConfigFault::ZeroBlockSize,
            ConfigError::InvalidStatus(name) => ConfigFault::InvalidStatus(name@),
        }
    }
}

impl ConfigFault {
    /// The refusal in words.
    pub open spec fn message(self) -> Seq<char> {
        match self {
            ConfigFault::Size(fault) => fault.message(),
            ConfigFault::InvalidRange { min, max } => "Invalid block size range: min ("@ + min
                + ") > max ("@ + max + ")"@,
            ConfigFault::ZeroBlockSize => "Invalid block size: must be at least one byte"@,
            ConfigFault::InvalidStatus(name) => "Invalid status value: "@ + name,
        }
    }
}

impl ConfigError {
    /// The refusal in words.
    pub fn message(&self) -> (text: String)
        ensures
            text@ == self@.message(),
    {
        match self {
            ConfigError::Size(e) => e.message(),
            ConfigError::InvalidRange { min, max } => {
                let mut text = String::from_str("Invalid block size range: min (");
                text.append(min.as_str());
                text.append(") > max (");
                text.append(max.as_str());
                text.append(")");
                text
            },
            ConfigError::ZeroBlockSize => String::from_str(
                "Invalid block size: must be at least one byte",
            ),
            ConfigError::InvalidStatus(name) => String::from_str("Invalid status value: ").concat(
                name.as_str(),
            ),
        }
    }
}

/// What a [`RandomDd`] holds, as contracts speak of it.
pub struct Settings {
    /// The texts that the settings were read from.
    pub args: Args,
    /// The smallest block that is read at once, in bytes.
    pub bs_min: u64,
    /// The largest block that is read at once, in bytes.
    pub bs_max: u64,
    /// Whether a failed read or write lets the run go on.
    pub noerror: bool,
    /// Whether a block that could not be filled is padded with zeros.
    pub sync: bool,
    /// How much the run reports.
    pub status_level: StatusLevel,
}

/// The settings of a copy run. The block sizes are positive and in order:
/// the smallest is at least one byte and never above the largest.
#[derive(Debug)]
pub struct RandomDd {
    args: Args,
    bs_min: u64,
    bs_max: u64,
    noerror: bool,
    sync: bool,
    status_level: StatusLevel,
}

impl View for RandomDd {
    type V = Settings;

    closed spec fn view(&self) -> Settings {
        Settings {
            args: self.args,
            bs_min: self.bs_min,
            bs_max: self.bs_max,
            noerror: self.noerror,
            sync: self.sync,
            status_level: self.status_level,
        }
    }
}

/// The settings that `args` stand for, or why they stand for none. The block
/// size is judged before the status name; it is refused where it is zero.
pub open spec fn settings_of(args: Args) -> Result<Settings, ConfigFault> {
    match block_range_of_text(args.bs@) {
        Err(fault) => Err(fault),
        Ok((bs_min, bs_max)) => match status_of_text(text_of(args.status)) {
            None => Err(ConfigFault::InvalidStatus(args.status->0@)),
            Some(status_level) => Ok(
                Settings {
                    args,
                    bs_min,
                    bs_max,
                    noerror: has_flag(args.conv@, "noerror"@),
                    sync: has_flag(args.conv@, "sync"@),
                    status_level,
                },
            ),
        },
    }
}

/// Settings that are not refused have block sizes that are positive and in
/// order.
pub proof fn lemma_settings_have_positive_blocks(args: Args)
    ensures
        settings_of(args) matches Ok(settings) ==> 0 < settings.bs_min <= settings.bs_max,
{
}

/// Whether one of `flags` is exactly `name`.
pub open spec fn has_flag(flags: Seq<String>, name: Seq<char>) -> bool {
    exists|i: int| 0 <= i < flags.len() && (#[trigger] flags[i])@ == name
}

/// The level that a status name stands for; no name stands for `Noxfer`.
pub open spec fn status_of_text(status: Option<Seq<char>>) -> Option<StatusLevel> {
    match status {
        None => Some(StatusLevel::Noxfer),
        Some(name) => if name == "none"@ {
            Some(StatusLevel::Quiet)
        } else if name == "progress"@ {
            Some(StatusLevel::Progress)
        } else if name == "bitarray"@ {
            Some(StatusLevel::BitArray)
        } else if name == "noxfer"@ {
            Some(StatusLevel::Noxfer)
        } else {
            None
        },
    }
}

/// The text of an optional setting.
pub open spec fn text_of(setting: Option<String>) -> Option<Seq<char>> {
    match setting {
        None => None,
        Some(text) => Some(text@),
    }
}

fn flag_given(flags: &Vec<String>, name: &str) -> (given: bool)
    ensures
        given == has_flag(flags@, name@),
{
    let mut i: usize = 0;
    while i < flags.len()
        invariant
            i <= flags.len(),
            forall|j: int| 0 <= j < i ==> (#[trigger] flags@[j])@ != name@,
        decreases flags.len() - i,
    {
        if same_text(flags[i].as_str(), name) {
            return true;
        }
        i += 1;
    }
    false
}

fn status_level_named(status: &Option<String>) -> (level: Option<StatusLevel>)
    ensures
        level == status_of_text(text_of(*status)),
{
    match status {
        None => Some(StatusLevel::Noxfer),
        Some(name) => {
            let name = name.as_str();
            if same_text(name, "none") {
                Some(StatusLevel::Quiet)
            } else if same_text(name, "progress") {
                Some(StatusLevel::Progress)
            } else if same_text(name, "bitarray") {
                Some(StatusLevel::BitArray)
            } else if same_text(name, "noxfer") {
                Some(StatusLevel::Noxfer)
            } else {
                None
            }
        },
    }
}

impl RandomDd {
    #[verifier::type_invariant]
    spec fn in_order(self) -> bool {
        0 < self.bs_min <= self.bs_max
    }

    /// Reads the settings from their texts.
    pub fn new(args: Args) -> (made: Result<RandomDd, ConfigError>)
        ensures
            match made {
                Ok(dd) => settings_of(args) == Ok::<Settings, ConfigFault>(dd@),
                Err(e) => settings_of(args) == Err::<Settings, ConfigFault>(e@),
            },
    {
        let (bs_min, bs_max) = match RandomDd::parse_bs_range(args.bs.as_str()) {
            Ok(range) => range,
            Err(e) => {
                return Err(e);
            },
        };
        let noerror = flag_given(&args.conv, "noerror");
        let sync = flag_given(&args.conv, "sync");
        let status_level = match status_level_named(&args.status) {
            Some(level) => level,
            None => {
                let name = match &args.status {
                    Some(name) => String::from_str(name.as_str()),
                    None => String::new(),
                };
                return Err(ConfigError::InvalidStatus(name));
            },
        };
        Ok(RandomDd { args, bs_min, bs_max, noerror, sync, status_level })
    }

    /// The smallest block that is read at once, in bytes.
    pub fn bs_min(&self) -> (bytes: u64)
        ensures
            bytes == self@.bs_min,
            0 < self@.bs_min <= self@.bs_max,
    {
        proof {
            use_type_invariant(self);
        }
        self.bs_min
    }

    /// The largest block that is read at once, in bytes.
    pub fn bs_max(&self) -> (bytes: u64)
        ensures
            bytes == self@.bs_max,
            0 < self@.bs_min <= self@.bs_max,
    {
        proof {
            use_type_invariant(self);
        }
        self.bs_max
    }

    /// Whether a failed read or write lets the run go on.
    pub fn noerror(&self) -> (set: bool)
        ensures
            set == self@.noerror,
    {
        self.noerror
    }

    /// Whether a block that could not be filled is padded with zeros.
    pub fn sync(&self) -> (set: bool)
        ensures
            set == self@.sync,
    {
        self.sync
    }

    /// How much the run reports.
    pub fn status_level(&self) -> (level: StatusLevel)
        ensures
            level == self@.status_level,
    {
        self.status_level
    }

    /// The texts that the settings were read from.
    pub fn args(&self) -> (args: &Args)
        ensures
            *args == self@.args,
    {
        &self.args
    }
}

} // verus!
