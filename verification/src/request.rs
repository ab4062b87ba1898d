//! The command-line flags as given, and the validated request made from them.
//!
//! `Args` holds whatever the flags said. A `Request` exists only for flags
//! that name at most one mode and keep every value inside its range, so code
//! that is handed a `Request` never has to look at an invalid combination.

use vstd::prelude::*;

verus! {

/// Percentage used when `--increase` or `--decrease` is given without a value.
pub const DEFAULT_DELTA: u8 = 5;

/// Notification timeout in milliseconds when `--timeout` is absent.
pub const DEFAULT_TIMEOUT: u32 = 2000;

/// Fade time in milliseconds when `--fade` is absent.
pub const DEFAULT_FADE_TIME: u16 = 100;

/// Number of fade steps when `--steps` is absent.
pub const DEFAULT_STEPS: u8 = 25;

/// Smallest percentage that `--set` accepts.
pub const SET_MIN: u8 = 1;

/// Largest percentage that `--set` accepts.
pub const SET_MAX: u8 = 100;

/// Largest notification timeout in milliseconds.
pub const TIMEOUT_MAX: u32 = 120000;

/// Largest fade time in milliseconds.
pub const FADE_TIME_MAX: u16 = 60000;

/// Smallest number of fade steps.
pub const STEPS_MIN: u8 = 1;

/// Largest number of fade steps.
pub const STEPS_MAX: u8 = 200;

/// The flags of one invocation, as the command line gave them.
#[derive(Clone, Copy, Debug)]
pub struct Args {
    /// `-i/--increase [PERCENTAGE]`
    pub increase: Option<u8>,
    /// `-d/--decrease [PERCENTAGE]`
    pub decrease: Option<u8>,
    /// `-s/--set PERCENTAGE`
    pub set: Option<u8>,
    /// `-g/--get`
    pub get: bool,
    /// `-t/--timeout DURATION`, milliseconds
    pub timeout: u32,
    /// `-f/--fade TIME`, milliseconds
    pub fade_time: u16,
    /// `-p/--steps STEPS`
    pub steps: u8,
}

/// What a request asks for.
#[derive(Clone, Copy, Debug, PartialEq, Eq, Structural)]
pub enum Mode {
    /// Report the current brightness and change nothing.
    Get,
    /// Set the brightness to this percentage.
    SetTo(u8),
    /// Raise the brightness by this percentage.
    Increase(u8),
    /// Lower the brightness by this percentage.
    Decrease(u8),
}

/// Why a set of flags is not a request.
#[derive(Clone, Copy, Debug, PartialEq, Eq, Structural)]
pub enum ValidationError {
    /// More than one of `--increase`, `--decrease`, `--set`, `--get` was given.
    ConflictingModes,
    /// The value of `--set` lies outside 1..=100.
    SetOutOfRange,
    /// The value of `--timeout` lies outside 0..=120000.
    TimeoutOutOfRange,
    /// The value of `--fade` lies outside 0..=60000.
    FadeTimeOutOfRange,
    /// The value of `--steps` lies outside 1..=200.
    StepsOutOfRange,
}

/// The mathematical content of a `Request`.
pub struct RequestView {
    pub mode: Mode,
    pub timeout: u32,
    pub fade_time: u16,
    pub steps: u8,
}

/// A validated request: one mode, and the three pass-through parameters,
/// each inside its range.
#[derive(Clone, Copy, Debug, PartialEq, Eq, Structural)]
pub struct Request {
    mode: Mode,
    timeout: u32,
    fade_time: u16,
    steps: u8,
}

impl ValidationError {
    /// The sentence that tells the user what was wrong.
    pub open spec fn message_text(self) -> Seq<char> {
        match self {
            ValidationError::ConflictingModes =>
                "only one of --increase, --decrease, --set and --get may be given"@,
            ValidationError::SetOutOfRange => "the value of --set must lie between 1 and 100"@,
            ValidationError::TimeoutOutOfRange =>
                "the value of --timeout must lie between 0 and 120000"@,
            ValidationError::FadeTimeOutOfRange =>
                "the value of --fade must lie between 0 and 60000"@,
            ValidationError::StepsOutOfRange => "the value of --steps must lie between 1 and 200"@,
        }
    }

    /// The sentence that tells the user what was wrong.
    pub fn message(&self) -> (text: &'static str)
        ensures
            text@ == self.message_text(),
    {
        match self {
            ValidationError::ConflictingModes => {
                "only one of --increase, --decrease, --set and --get may be given"
            },
            ValidationError::SetOutOfRange => "the value of --set must lie between 1 and 100",
            ValidationError::TimeoutOutOfRange => {
                "the value of --timeout must lie between 0 and 120000"
            },
            ValidationError::FadeTimeOutOfRange => {
                "the value of --fade must lie between 0 and 60000"
            },
            ValidationError::StepsOutOfRange => "the value of --steps must lie between 1 and 200",
        }
    }
}

impl RequestView {
    /// Every value lies inside the range that its flag documents.
    pub open spec fn valid(self) -> bool {
        &&& self.mode matches Mode::SetTo(v) ==> SET_MIN <= v <= SET_MAX
        &&& self.timeout <= TIMEOUT_MAX
        &&& self.fade_time <= FADE_TIME_MAX
        &&& STEPS_MIN <= self.steps <= STEPS_MAX
    }
}

impl Args {
    /// How many of the four mode flags were given.
    pub open spec fn modes_given(self) -> nat {
        let i: nat = if self.increase is Some { 1 } else { 0 };
        let d: nat = if self.decrease is Some { 1 } else { 0 };
        let s: nat = if self.set is Some { 1 } else { 0 };
        let g: nat = if self.get { 1 } else { 0 };
        i + d + s + g
    }

    /// The mode that the flags name. With no mode flag at all the request is
    /// a plain report, the same as `--get`.
    pub open spec fn mode(self) -> Mode
        recommends
            self.modes_given() <= 1,
    {
        match (self.set, self.increase, self.decrease) {
            (Some(v), _, _) => Mode::SetTo(v),
            (None, Some(d), _) => Mode::Increase(d),
            (None, None, Some(d)) => Mode::Decrease(d),
            (None, None, None) => Mode::Get,
        }
    }

    /// The request that the flags describe, valid or not.
    pub open spec fn as_request(self) -> RequestView {
        RequestView {
            mode: self.mode(),
            timeout: self.timeout,
            fade_time: self.fade_time,
            steps: self.steps,
        }
    }

    /// The flags name at most one mode, and every value is in range.
    pub open spec fn acceptable(self) -> bool {
        self.modes_given() <= 1 && self.as_request().valid()
    }

    /// The error reported for flags that are not acceptable: a conflict of
    /// modes before any range, then the ranges in the order set, timeout,
    /// fade time, steps.
    pub open spec fn fault(self) -> Option<ValidationError> {
        if self.modes_given() > 1 {
            Some(ValidationError::ConflictingModes)
        } else if self.set matches Some(v) && !(SET_MIN <= v <= SET_MAX) {
            Some(ValidationError::SetOutOfRange)
        } else if self.timeout > TIMEOUT_MAX {
            Some(ValidationError::TimeoutOutOfRange)
        } else if self.fade_time > FADE_TIME_MAX {
            Some(ValidationError::FadeTimeOutOfRange)
        } else if !(STEPS_MIN <= self.steps <= STEPS_MAX) {
            Some(ValidationError::StepsOutOfRange)
        } else {
            None
        }
    }

    /// Flags have a fault exactly when they are not acceptable.
    pub proof fn lemma_fault_iff_unacceptable(self)
        ensures
            self.fault() is None <==> self.acceptable(),
    {
    }
}

impl Default for Args {
    /// No mode flag, and the documented defaults of the other three.
    fn default() -> (args: Args)
        ensures
            args.increase is None,
            args.decrease is None,
            args.set is None,
            !args.get,
            args.timeout == DEFAULT_TIMEOUT,
            args.fade_time == DEFAULT_FADE_TIME,
            args.steps == DEFAULT_STEPS,
            args.acceptable(),
    {
        Args {
            increase: None,
            decrease: None,
            set: None,
            get: false,
            timeout: DEFAULT_TIMEOUT,
            fade_time: DEFAULT_FADE_TIME,
            steps: DEFAULT_STEPS,
        }
    }
}

impl View for Request {
    type V = RequestView;

    closed spec fn view(&self) -> RequestView {
        RequestView {
            mode: self.mode,
            timeout: self.timeout,
            fade_time: self.fade_time,
            steps: self.steps,
        }
    }
}

impl Request {
    /// Holds of every request there is: its values are in range.
    #[verifier::type_invariant]
    pub open spec fn well_formed(&self) -> bool {
        self@.valid()
    }

    /// Validates the flags. Succeeds exactly when they are acceptable, and
    /// then returns the request they describe; otherwise names the fault.
    pub fn from_args(args: &Args) -> (result: Result<Request, ValidationError>)
        ensures
            result is Ok <==> args.acceptable(),
            result matches Ok(request) ==> request@ == args.as_request() && request@.valid(),
            result matches Err(error) ==> args.fault() == Some(error),
            args.modes_given() > 1 ==> result == Err::<Request, ValidationError>(
                ValidationError::ConflictingModes,
            ),
            args.set matches Some(v) ==> (args.modes_given() <= 1 && !(1 <= v <= 100) ==> result
                == Err::<Request, ValidationError>(ValidationError::SetOutOfRange)),
    {
        let mut given: u8 = 0;
        if args.increase.is_some() {
            given = given + 1;
        }
        if args.decrease.is_some() {
            given = given + 1;
        }
        if args.set.is_some() {
            given = given + 1;
        }
        if args.get {
            given = given + 1;
        }
        if given > 1 {
            return Err(ValidationError::ConflictingModes);
        }
        let mode = match (args.set, args.increase, args.decrease) {
            (Some(v), _, _) => {
                if v < SET_MIN || v > SET_MAX {
                    return Err(ValidationError::SetOutOfRange);
                }
                Mode::SetTo(v)
            },
            (None, Some(d), _) => Mode::Increase(d),
            (None, None, Some(d)) => Mode::Decrease(d),
            (None, None, None) => Mode::Get,
        };
        if args.timeout > TIMEOUT_MAX {
            return Err(ValidationError::TimeoutOutOfRange);
        }
        if args.fade_time > FADE_TIME_MAX {
            return Err(ValidationError::FadeTimeOutOfRange);
        }
        if args.steps < STEPS_MIN || args.steps > STEPS_MAX {
            return Err(ValidationError::StepsOutOfRange);
        }
        Ok(Request { mode, timeout: args.timeout, fade_time: args.fade_time, steps: args.steps })
    }

    /// What the request asks for.
    pub fn mode(&self) -> (mode: Mode)
        ensures
            mode == self@.mode,
            mode matches Mode::SetTo(v) ==> SET_MIN <= v <= SET_MAX,
    {
        proof {
            use_type_invariant(self);
        }
        self.mode
    }

    /// Notification timeout in milliseconds.
    pub fn timeout(&self) -> (timeout: u32)
        ensures
            timeout == self@.timeout,
            timeout <= TIMEOUT_MAX,
    {
        proof {
            use_type_invariant(self);
        }
        self.timeout
    }

    /// Fade time in milliseconds.
    pub fn fade_time(&self) -> (fade_time: u16)
        ensures
            fade_time == self@.fade_time,
            fade_time <= FADE_TIME_MAX,
    {
        proof {
            use_type_invariant(self);
        }
        self.fade_time
    }

    /// Number of fade steps.
    pub fn steps(&self) -> (steps: u8)
        ensures
            steps == self@.steps,
            STEPS_MIN <= steps <= STEPS_MAX,
    {
        proof {
            use_type_invariant(self);
        }
        self.steps
    }
}

} // verus!
