//! Boot configuration: which images to load from storage and in which
//! privilege mode the next stage starts.

use vstd::prelude::*;

verus! {

/// Privilege mode the next stage is entered in.
#[derive(Clone, Copy, PartialEq, Eq, Structural, Debug)]
pub enum Mode {
    Machine,
    Supervisor,
    User,
}

impl Mode {
    /// The privilege code of the mode, as the hand-off record carries it.
    pub open spec fn spec_code(self) -> usize {
        match self {
            Mode::Machine => 3,
            Mode::Supervisor => 1,
            Mode::User => 0,
        }
    }

    /// Executable form of [`Mode::spec_code`].
    #[verifier::when_used_as_spec(spec_code)]
    pub fn code(self) -> (r: usize)
        ensures
            r == self.spec_code(),
    {
        match self {
            Mode::Machine => 3,
            Mode::Supervisor => 1,
            Mode::User => 0,
        }
    }
}

/// Where the next boot stage comes from and how it is entered.
#[derive(Debug)]
pub struct NextStageConfig {
    /// Path of the next-stage image in the root directory, when one is named.
    pub path: Option<String>,
    /// Privilege mode to enter it in.
    pub mode: Mode,
}

/// The boot configuration: image paths and kernel arguments.
#[derive(Debug)]
pub struct Config {
    /// Path of the firmware image.
    pub firmware: Option<String>,
    /// Path of the opaque device-tree blob.
    pub opaque: Option<String>,
    /// Kernel argument line.
    pub bootargs: Option<String>,
    /// The next stage to run.
    pub next_stage: NextStageConfig,
}

impl Default for Config {
    /// The fallback configuration: the standard firmware image, entered in
    /// supervisor mode, nothing else.
    fn default() -> (r: Config)
        ensures
            r.firmware matches Some(f) && f@ == "rustsbi.bin"@,
            r.opaque is None,
            r.bootargs is None,
            r.next_stage.path is None,
            r.next_stage.mode == Mode::Supervisor,
    {
        Config {
            firmware: Some("rustsbi.bin".to_string()),
            opaque: None,
            bootargs: None,
            next_stage: NextStageConfig { path: None, mode: Mode::Supervisor },
        }
    }
}

} // verus!
