//! Command-line options: the configuration record and its parser.
use crate::text::{parse_u32, same_text, u32_of_text};
use vstd::prelude::*;

verus! {

/// How a source image is fitted to a requested size.
#[derive(Clone, Copy, PartialEq, Eq, Structural, Debug)]
pub enum FitMode {
    /// Resize and crop to fill the target exactly.
    Cover,
    /// Resize to fit within the target, keeping the aspect ratio.
    Contain,
    /// Like `Contain`, but only when the source is larger than the target.
    ScaleDown,
}

/// Quality used when none is given.
pub const DEFAULT_QUALITY: u8 = 85;

/// The run's configuration, built once from the argument tokens.
pub struct Config {
    pub show_metadata: bool,
    pub width: Option<u32>,
    pub height: Option<u32>,
    pub fit: Option<FitMode>,
    pub quality: u8,
    pub format: Option<String>,
}

/// Mathematical model of a `Config`: the format name as a character sequence.
pub struct ConfigView {
    pub show_metadata: bool,
    pub width: Option<u32>,
    pub height: Option<u32>,
    pub fit: Option<FitMode>,
    pub quality: u8,
    pub format: Option<Seq<char>>,
}

impl View for Config {
    type V = ConfigView;

    open spec fn view(&self) -> ConfigView {
        ConfigView {
            show_metadata: self.show_metadata,
            width: self.width,
            height: self.height,
            fit: self.fit,
            quality: self.quality,
            format: match self.format {
                Some(f) => Some(f@),
                None => None,
            },
        }
    }
}

/// The configuration before any token is read.
pub open spec fn default_config() -> ConfigView {
    ConfigView {
        show_metadata: false,
        width: None,
        height: None,
        fit: None,
        quality: DEFAULT_QUALITY,
        format: None,
    }
}

impl Config {
    pub fn new() -> (r: Config)
        ensures
            r@ == default_config(),
    {
        Config {
            show_metadata: false,
            width: None,
            height: None,
            fit: None,
            quality: DEFAULT_QUALITY,
            format: None,
        }
    }
}

/// What the arguments ask for: the usage text, or a run.
pub enum Command {
    Help,
    Run(Config),
}

pub enum CommandView {
    Help,
    Run(ConfigView),
}

impl View for Command {
    type V = CommandView;

    open spec fn view(&self) -> CommandView {
        match self {
            Command::Help => CommandView::Help,
            Command::Run(c) => CommandView::Run(c@),
        }
    }
}

/// A malformed argument list.
#[derive(Clone, Copy, PartialEq, Eq, Structural, Debug)]
pub enum ArgError {
    MissingWidth,
    MissingHeight,
    MissingFit,
    MissingQuality,
    MissingFormat,
    InvalidWidth,
    InvalidHeight,
    InvalidFit,
    InvalidQuality,
}

/// The one-line diagnostic of each argument error.
pub open spec fn arg_error_text(e: ArgError) -> Seq<char> {
    match e {
        ArgError::MissingWidth => "-w/--width requires a value"@,
        ArgError::MissingHeight => "-h/--height requires a value"@,
        ArgError::MissingFit => "--fit requires a value"@,
        ArgError::MissingQuality => "-q/--quality requires a value"@,
        ArgError::MissingFormat => "-f/--format requires a value"@,
        ArgError::InvalidWidth => "width must be a positive integer"@,
        ArgError::InvalidHeight => "height must be a positive integer"@,
        ArgError::InvalidFit => "invalid fit mode, possible values: cover, contain, scale-down"@,
        ArgError::InvalidQuality => "quality must be an integer in 1..=100"@,
    }
}

impl ArgError {
    pub fn message(&self) -> (r: String)
        ensures
            r@ == arg_error_text(*self),
    {
        let s = match self {
            ArgError::MissingWidth => "-w/--width requires a value",
            ArgError::MissingHeight => "-h/--height requires a value",
            ArgError::MissingFit => "--fit requires a value",
            ArgError::MissingQuality => "-q/--quality requires a value",
            ArgError::MissingFormat => "-f/--format requires a value",
            ArgError::InvalidWidth => "width must be a positive integer",
            ArgError::InvalidHeight => "height must be a positive integer",
            ArgError::InvalidFit => "invalid fit mode, possible values: cover, contain, scale-down",
            ArgError::InvalidQuality => "quality must be an integer in 1..=100",
        };
        String::from_str(s)
    }
}

/// The recognised flags.
#[derive(Clone, Copy, PartialEq, Eq, Structural, Debug)]
pub enum Flag {
    Info,
    Width,
    Height,
    Fit,
    Cover,
    Contain,
    ScaleDown,
    Quality,
    Format,
    Unknown,
}

pub open spec fn flag_of(a: Seq<char>) -> Flag {
    if a == "-i"@ || a == "--info"@ {
        Flag::Info
    } else if a == "-w"@ || a == "--width"@ {
        Flag::Width
    } else if a == "-h"@ || a == "--height"@ {
        Flag::Height
    } else if a == "--fit"@ {
        Flag::Fit
    } else if a == "--cover"@ {
        Flag::Cover
    } else if a == "--contain"@ {
        Flag::Contain
    } else if a == "--scale-down"@ {
        Flag::ScaleDown
    } else if a == "-q"@ || a == "--quality"@ {
        Flag::Quality
    } else if a == "-f"@ || a == "--format"@ {
        Flag::Format
    } else {
        Flag::Unknown
    }
}

/// The fit mode that a `--fit` value names.
pub open spec fn fit_of(a: Seq<char>) -> Option<FitMode> {
    if a == "cover"@ {
        Some(FitMode::Cover)
    } else if a == "contain"@ {
        Some(FitMode::Contain)
    } else if a == "scale-down"@ {
        Some(FitMode::ScaleDown)
    } else {
        None
    }
}

/// A positive `u32` dimension, if the text is one.
pub open spec fn dimension_of(a: Seq<char>) -> Option<u32> {
    match u32_of_text(a) {
        Some(v) => if v > 0 { Some(v) } else { None },
        None => None,
    }
}

/// A quality in `1..=100`, if the text is one.
pub open spec fn quality_of(a: Seq<char>) -> Option<u8> {
    match u32_of_text(a) {
        Some(v) => if 1 <= v <= 100 { Some(v as u8) } else { None },
        None => None,
    }
}

/// Reads the tokens from position `i` on, left to right, into `c`.
pub open spec fn parse_from(c: ConfigView, args: Seq<Seq<char>>, i: int) -> Result<CommandView, ArgError>
    decreases args.len() - i,
{
    if i < 0 || i >= args.len() {
        Ok(CommandView::Run(c))
    } else {
        let has_value = i + 1 < args.len();
        match flag_of(args[i]) {
            Flag::Info => parse_from(ConfigView { show_metadata: true, ..c }, args, i + 1),
            Flag::Cover => parse_from(ConfigView { fit: Some(FitMode::Cover), ..c }, args, i + 1),
            Flag::Contain => parse_from(ConfigView { fit: Some(FitMode::Contain), ..c }, args, i + 1),
            Flag::ScaleDown => parse_from(ConfigView { fit: Some(FitMode::ScaleDown), ..c }, args, i + 1),
            Flag::Width => if !has_value {
                Err(ArgError::MissingWidth)
            } else {
                match dimension_of(args[i + 1]) {
                    Some(v) => parse_from(ConfigView { width: Some(v), ..c }, args, i + 2),
                    None => Err(ArgError::InvalidWidth),
                }
            },
            Flag::Height => if !has_value {
                Err(ArgError::MissingHeight)
            } else {
                match dimension_of(args[i + 1]) {
                    Some(v) => parse_from(ConfigView { height: Some(v), ..c }, args, i + 2),
                    None => Err(ArgError::InvalidHeight),
                }
            },
            Flag::Fit => if !has_value {
                Err(ArgError::MissingFit)
            } else {
                match fit_of(args[i + 1]) {
                    Some(m) => parse_from(ConfigView { fit: Some(m), ..c }, args, i + 2),
                    None => Err(ArgError::InvalidFit),
                }
            },
            Flag::Quality => if !has_value {
                Err(ArgError::MissingQuality)
            } else {
                match quality_of(args[i + 1]) {
                    Some(q) => parse_from(ConfigView { quality: q, ..c }, args, i + 2),
                    None => Err(ArgError::InvalidQuality),
                }
            },
            Flag::Format => if !has_value {
                Err(ArgError::MissingFormat)
            } else {
                parse_from(ConfigView { format: Some(args[i + 1]), ..c }, args, i + 2)
            },
            Flag::Unknown => Ok(CommandView::Help),
        }
    }
}

/// The meaning of a whole argument list (program name excluded).
pub open spec fn parse_spec(args: Seq<Seq<char>>) -> Result<CommandView, ArgError> {
    if args.len() == 0 {
        Ok(CommandView::Help)
    } else {
        parse_from(default_config(), args, 0)
    }
}

pub open spec fn texts(args: Seq<String>) -> Seq<Seq<char>> {
    args.map_values(|s: String| s@)
}

pub open spec fn command_result_view(r: Result<Command, ArgError>) -> Result<CommandView, ArgError> {
    match r {
        Ok(c) => Ok(c@),
        Err(e) => Err(e),
    }
}

pub fn classify(a: &str) -> (r: Flag)
    ensures
        r == flag_of(a@),
{
    if same_text(a, "-i") || same_text(a, "--info") {
        Flag::Info
    } else if same_text(a, "-w") || same_text(a, "--width") {
        Flag::Width
    } else if same_text(a, "-h") || same_text(a, "--height") {
        Flag::Height
    } else if same_text(a, "--fit") {
        Flag::Fit
    } else if same_text(a, "--cover") {
        Flag::Cover
    } else if same_text(a, "--contain") {
        Flag::Contain
    } else if same_text(a, "--scale-down") {
        Flag::ScaleDown
    } else if same_text(a, "-q") || same_text(a, "--quality") {
        Flag::Quality
    } else if same_text(a, "-f") || same_text(a, "--format") {
        Flag::Format
    } else {
        Flag::Unknown
    }
}

pub fn parse_fit(a: &str) -> (r: Option<FitMode>)
    ensures
        r == fit_of(a@),
{
    if same_text(a, "cover") {
        Some(FitMode::Cover)
    } else if same_text(a, "contain") {
        Some(FitMode::Contain)
    } else if same_text(a, "scale-down") {
        Some(FitMode::ScaleDown)
    } else {
        None
    }
}

pub fn parse_dimension(a: &str) -> (r: Option<u32>)
    ensures
        r == dimension_of(a@),
{
    match parse_u32(a) {
        Some(v) => if v > 0 { Some(v) } else { None },
        None => None,
    }
}

pub fn parse_quality(a: &str) -> (r: Option<u8>)
    ensures
        r == quality_of(a@),
{
    match parse_u32(a) {
        Some(v) => if 1 <= v && v <= 100 { Some(v as u8) } else { None },
        None => None,
    }
}

/// Parses the argument tokens (program name excluded) into a command.
/// No tokens at all, or an unrecognised flag, ask for the usage text.
pub fn parse_args(args: &Vec<String>) -> (r: Result<Command, ArgError>)
    ensures
        command_result_view(r) == parse_spec(texts(args@)),
{
    let ghost t = texts(args@);
    let n = args.len();
    if n == 0 {
        return Ok(Command::Help);
    }
    let mut c = Config::new();
    let mut i: usize = 0;
    while i < n
        invariant
            n == args@.len(),
            t == texts(args@),
            t.len() == n,
            i <= n,
            parse_spec(t) == parse_from(c@, t, i as int),
        decreases n - i,
    {
        assert(t[i as int] == args@[i as int]@);
        let has_value = i + 1 < n;
        match classify(args[i].as_str()) {
            Flag::Info => {
                c.show_metadata = true;
                i = i + 1;
            },
            Flag::Cover => {
                c.fit = Some(FitMode::Cover);
                i = i + 1;
            },
            Flag::Contain => {
                c.fit = Some(FitMode::Contain);
                i = i + 1;
            },
            Flag::ScaleDown => {
                c.fit = Some(FitMode::ScaleDown);
                i = i + 1;
            },
            Flag::Width => {
                if !has_value {
                    return Err(ArgError::MissingWidth);
                }
                assert(t[i + 1] == args@[i + 1]@);
                match parse_dimension(args[i + 1].as_str()) {
                    Some(v) => c.width = Some(v),
                    None => return Err(ArgError::InvalidWidth),
                }
                i = i + 2;
            },
            Flag::Height => {
                if !has_value {
                    return Err(ArgError::MissingHeight);
                }
                assert(t[i + 1] == args@[i + 1]@);
                match parse_dimension(args[i + 1].as_str()) {
                    Some(v) => c.height = Some(v),
                    None => return Err(ArgError::InvalidHeight),
                }
                i = i + 2;
            },
            Flag::Fit => {
                if !has_value {
                    return Err(ArgError::MissingFit);
                }
                assert(t[i + 1] == args@[i + 1]@);
                match parse_fit(args[i + 1].as_str()) {
                    Some(m) => c.fit = Some(m),
                    None => return Err(ArgError::InvalidFit),
                }
                i = i + 2;
            },
            Flag::Quality => {
                if !has_value {
                    return Err(ArgError::MissingQuality);
                }
                assert(t[i + 1] == args@[i + 1]@);
                match parse_quality(args[i + 1].as_str()) {
                    Some(q) => c.quality = q,
                    None => return Err(ArgError::InvalidQuality),
                }
                i = i + 2;
            },
            Flag::Format => {
                if !has_value {
                    return Err(ArgError::MissingFormat);
                }
                assert(t[i + 1] == args@[i + 1]@);
                c.format = Some(args[i + 1].clone());
                i = i + 2;
            },
            Flag::Unknown => {
                return Ok(Command::Help);
            },
        }
    }
    Ok(Command::Run(c))
}

} // verus!
