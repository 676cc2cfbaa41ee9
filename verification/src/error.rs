//! What can be wrong with a configuration or a command line.

use vstd::prelude::*;
use vstd::string::*;

use crate::decode::debug_string;
use crate::text::{decimal, decimal_signed};

verus! {

/// Why a configuration was refused, or a command not run.
#[derive(Debug, Clone)]
pub enum WatchError {
    /// `[smited.connection] strategy` names no strategy.
    UnknownStrategy { value: String },
    /// A pattern's regex does not compile.
    InvalidRegex { name: String, regex: String, reason: String },
    /// Every pattern compiles, but not all of them in one set.
    RegexSet { reason: String },
    /// A pattern's `intensity_scale` is over 100.
    IntensityOutOfRange { name: String, intensity_scale: u32 },
    /// A pattern's `priority` is outside -1000..=1000.
    PriorityOutOfRange { name: String, priority: i32 },
    /// Neither `$XDG_CONFIG_HOME` nor `$HOME` says where the configuration lives.
    HomeUnset,
    /// `%APPDATA%` does not say where the configuration lives.
    AppDataUnset,
    /// This platform has no default place for the configuration.
    UnsupportedPlatform,
    /// There is no command to wrap.
    NoCommand,
}

/// A [`WatchError`] with its strings as character sequences.
pub enum ErrorView {
    UnknownStrategy { value: Seq<char> },
    InvalidRegex { name: Seq<char>, regex: Seq<char>, reason: Seq<char> },
    RegexSet { reason: Seq<char> },
    IntensityOutOfRange { name: Seq<char>, intensity_scale: u32 },
    PriorityOutOfRange { name: Seq<char>, priority: i32 },
    HomeUnset,
    AppDataUnset,
    UnsupportedPlatform,
    NoCommand,
}

impl View for WatchError {
    type V = ErrorView;

    open spec fn view(&self) -> ErrorView {
        match *self {
            WatchError::UnknownStrategy { value } => ErrorView::UnknownStrategy { value: value@ },
            WatchError::InvalidRegex { name, regex, reason } => ErrorView::InvalidRegex {
                name: name@,
                regex: regex@,
                reason: reason@,
            },
            WatchError::RegexSet { reason } => ErrorView::RegexSet { reason: reason@ },
            WatchError::IntensityOutOfRange { name, intensity_scale } => ErrorView::IntensityOutOfRange {
                name: name@,
                intensity_scale,
            },
            WatchError::PriorityOutOfRange { name, priority } => ErrorView::PriorityOutOfRange {
                name: name@,
                priority,
            },
            WatchError::HomeUnset => ErrorView::HomeUnset,
            WatchError::AppDataUnset => ErrorView::AppDataUnset,
            WatchError::UnsupportedPlatform => ErrorView::UnsupportedPlatform,
            WatchError::NoCommand => ErrorView::NoCommand,
        }
    }
}

impl ErrorView {
    /// The name of the pattern that is at fault, where one is.
    pub open spec fn pattern_name(self) -> Option<Seq<char>> {
        match self {
            ErrorView::InvalidRegex { name, .. } => Some(name),
            ErrorView::IntensityOutOfRange { name, .. } => Some(name),
            ErrorView::PriorityOutOfRange { name, .. } => Some(name),
            _ => None,
        }
    }

    /// The message shown to the user.
    pub open spec fn message(self) -> Seq<char> {
        match self {
            ErrorView::UnknownStrategy { value } => "smited.connection.strategy: unknown variant `"@
                + value + "`, expected `persistent` or `per_trigger`"@,
            ErrorView::InvalidRegex { name, regex, reason } => "pattern "@
                + crate::decode::debug_text(name) + ": invalid regex "@
                + crate::decode::debug_text(regex) + ": "@ + reason,
            ErrorView::RegexSet { reason } => "build RegexSet: "@ + reason,
            ErrorView::IntensityOutOfRange { name, intensity_scale } => "pattern "@
                + crate::decode::debug_text(name) + ": intensity_scale "@ + crate::text::digits(
                intensity_scale as nat,
            ) + " out of range 0..=100"@,
            ErrorView::PriorityOutOfRange { name, priority } => "pattern "@
                + crate::decode::debug_text(name) + ": priority "@ + crate::text::signed_digits(
                priority as int,
            ) + " out of range -1000..=1000"@,
            ErrorView::HomeUnset => "$HOME is unset; cannot compute default config path"@,
            ErrorView::AppDataUnset => "%APPDATA% is unset; cannot compute default config path"@,
            ErrorView::UnsupportedPlatform => "unsupported platform for default config path"@,
            ErrorView::NoCommand => "no command given to wrap"@,
        }
    }
}

/// What is in quotes behind `pattern ` occurs in the message.
proof fn lemma_quoted_name_occurs(name: Seq<char>, rest: Seq<char>)
    ensures
        crate::text::occurs_in(name, "pattern "@ + (seq!['"'] + name + seq!['"']) + rest),
{
    reveal_strlit("pattern ");
    let whole = "pattern "@ + (seq!['"'] + name + seq!['"']) + rest;
    assert(whole.subrange(9int, 9int + name.len()) =~= name);
}

impl WatchError {
    /// The message shown to the user. Where a pattern is at fault, it holds the pattern's name,
    /// letter for letter where nothing in the name needs escaping.
    pub fn message(&self) -> (r: String)
        ensures
            r@ == self@.message(),
            self@.pattern_name() matches Some(name) ==> crate::decode::is_plain(name)
                ==> crate::text::occurs_in(name, r@),
    {
        match self {
            WatchError::UnknownStrategy { value } => {
                let mut r = "smited.connection.strategy: unknown variant `".to_owned();
                r.append(value.as_str());
                r.append("`, expected `persistent` or `per_trigger`");
                r
            },
            WatchError::InvalidRegex { name, regex, reason } => {
                let mut r = "pattern ".to_owned();
                let quoted = debug_string(name.as_str());
                r.append(quoted.as_str());
                let ghost head = r@;
                r.append(": invalid regex ");
                r.append(debug_string(regex.as_str()).as_str());
                r.append(": ");
                r.append(reason.as_str());
                proof {
                    let rest = r@.skip(head.len() as int);
                    assert(r@ =~= head + rest);
                    lemma_quoted_name_occurs(name@, rest);
                }
                r
            },
            WatchError::RegexSet { reason } => {
                let mut r = "build RegexSet: ".to_owned();
                r.append(reason.as_str());
                r
            },
            WatchError::IntensityOutOfRange { name, intensity_scale } => {
                let mut r = "pattern ".to_owned();
                let quoted = debug_string(name.as_str());
                r.append(quoted.as_str());
                let ghost head = r@;
                r.append(": intensity_scale ");
                r.append(decimal(*intensity_scale as u128).as_str());
                r.append(" out of range 0..=100");
                proof {
                    let rest = r@.skip(head.len() as int);
                    assert(r@ =~= head + rest);
                    lemma_quoted_name_occurs(name@, rest);
                }
                r
            },
            WatchError::PriorityOutOfRange { name, priority } => {
                let mut r = "pattern ".to_owned();
                let quoted = debug_string(name.as_str());
                r.append(quoted.as_str());
                let ghost head = r@;
                r.append(": priority ");
                r.append(decimal_signed(*priority).as_str());
                r.append(" out of range -1000..=1000");
                proof {
                    let rest = r@.skip(head.len() as int);
                    assert(r@ =~= head + rest);
                    lemma_quoted_name_occurs(name@, rest);
                }
                r
            },
            WatchError::HomeUnset => "$HOME is unset; cannot compute default config path".to_owned(),
            WatchError::AppDataUnset => "%APPDATA% is unset; cannot compute default config path".to_owned(),
            WatchError::UnsupportedPlatform => "unsupported platform for default config path".to_owned(),
            WatchError::NoCommand => "no command given to wrap".to_owned(),
        }
    }
}

/// What is known of an error is what it carries, field by field.
pub proof fn law_an_error_is_seen_whole(e: WatchError)
    ensures
        e matches WatchError::UnknownStrategy { value } ==> e@ == (ErrorView::UnknownStrategy {
            value: value@,
        }),
        e matches WatchError::InvalidRegex { name, regex, reason } ==> e@
            == (ErrorView::InvalidRegex { name: name@, regex: regex@, reason: reason@ }),
        e matches WatchError::RegexSet { reason } ==> e@ == (ErrorView::RegexSet {
            reason: reason@,
        }),
        e matches WatchError::IntensityOutOfRange { name, intensity_scale } ==> e@
            == (ErrorView::IntensityOutOfRange { name: name@, intensity_scale }),
        e matches WatchError::PriorityOutOfRange { name, priority } ==> e@
            == (ErrorView::PriorityOutOfRange { name: name@, priority }),
        e is HomeUnset <==> e@ is HomeUnset,
        e is AppDataUnset <==> e@ is AppDataUnset,
        e is UnsupportedPlatform <==> e@ is UnsupportedPlatform,
        e is NoCommand <==> e@ is NoCommand,
{
}

/// A message on a pattern opens with the pattern, as it is printed, and ends with what is wrong with
/// it: the regex and why, or the number that is out of its range.
pub proof fn law_a_message_says_what_is_wrong(e: ErrorView)
    ensures
        e.pattern_name() matches Some(name) ==> ("pattern "@ + crate::decode::debug_text(
            name,
        )).is_prefix_of(e.message()),
        e matches ErrorView::InvalidRegex { name, regex, reason } ==> e.pattern_name() == Some(name)
            && (": invalid regex "@ + crate::decode::debug_text(regex) + ": "@
            + reason).is_suffix_of(e.message()),
        e matches ErrorView::IntensityOutOfRange { name, intensity_scale } ==> e.pattern_name()
            == Some(name) && (": intensity_scale "@ + crate::text::digits(intensity_scale as nat)
            + " out of range 0..=100"@).is_suffix_of(e.message()),
        e matches ErrorView::PriorityOutOfRange { name, priority } ==> e.pattern_name() == Some(
            name,
        ) && (": priority "@ + crate::text::signed_digits(priority as int)
            + " out of range -1000..=1000"@).is_suffix_of(e.message()),
        e matches ErrorView::RegexSet { reason } ==> reason.is_suffix_of(e.message()),
        e matches ErrorView::UnknownStrategy { value } ==> crate::text::occurs_in(
            value,
            e.message(),
        ),
        e is UnknownStrategy || e is RegexSet || e is HomeUnset || e is AppDataUnset
            || e is UnsupportedPlatform || e is NoCommand ==> e.pattern_name() is None,
{
    match e {
        ErrorView::UnknownStrategy { value } => {
            let front = "smited.connection.strategy: unknown variant `"@;
            let i = front.len() as int;
            assert(e.message().subrange(i, i + value.len()) =~= value);
        },
        ErrorView::InvalidRegex { name, regex, reason } => {
            let front = "pattern "@ + crate::decode::debug_text(name);
            let back = ": invalid regex "@ + crate::decode::debug_text(regex) + ": "@ + reason;
            assert(e.message() =~= front + back);
            assert(front.is_prefix_of(e.message()));
            assert(back.is_suffix_of(e.message()));
        },
        ErrorView::RegexSet { reason } => {
            assert(reason.is_suffix_of(e.message()));
        },
        ErrorView::IntensityOutOfRange { name, intensity_scale } => {
            let front = "pattern "@ + crate::decode::debug_text(name);
            let back = ": intensity_scale "@ + crate::text::digits(intensity_scale as nat)
                + " out of range 0..=100"@;
            assert(e.message() =~= front + back);
            assert(front.is_prefix_of(e.message()));
            assert(back.is_suffix_of(e.message()));
        },
        ErrorView::PriorityOutOfRange { name, priority } => {
            let front = "pattern "@ + crate::decode::debug_text(name);
            let back = ": priority "@ + crate::text::signed_digits(priority as int)
                + " out of range -1000..=1000"@;
            assert(e.message() =~= front + back);
            assert(front.is_prefix_of(e.message()));
            assert(back.is_suffix_of(e.message()));
        },
        _ => {},
    }
}

} // verus!
