//! Script effects: the only way a script influences the outside world.
//!
//! Every field of an effect is a validated newtype whose constructor is the
//! only way to build it, so an ill-formed effect cannot exist:
//! - CR, LF and NUL are rejected in every field (no protocol injection);
//! - target names reject white space and `,` (no target smuggling);
//! - channel names must start with a channel prefix;
//! - every field is length-capped, in UTF-8 bytes.
//!
//! Formatting control codes (bold, colour, ...) are allowed in [`Text`].

use vstd::prelude::*;
use vstd::utf8::{
    encode_scalar, encode_utf8, has_width_1_encoding, has_width_2_encoding, has_width_3_encoding,
};

use crate::chars::{
    find_char, find_first, is_ascii_alnum, is_ascii_alphanumeric, is_unicode_whitespace,
    is_whitespace, lemma_find_first,
};

verus! {

/// Maximum bytes for a single text payload.
pub const MAX_TEXT_LEN: usize = 8192;

/// Maximum bytes for a name (nick, channel, timer) or a mode string.
pub const MAX_NAME_LEN: usize = 256;

/// Why a payload was rejected. Purely about the value.
#[derive(Debug, Clone, PartialEq, Eq, Structural)]
pub enum InvalidPayload {
    /// The value is empty.
    Empty,
    /// The value exceeds `max` bytes.
    TooLong { max: usize },
    /// The value contains CR, LF or NUL.
    ProtocolChar,
    /// The value contains the given forbidden character.
    ForbiddenChar(char),
}

// ---------------------------------------------------------------------------
// The model: what each payload type accepts, over the characters of a string.
// ---------------------------------------------------------------------------

/// Length in bytes of the UTF-8 encoding of `s` (what `str::len` returns).
pub open spec fn byte_len(s: Seq<char>) -> nat {
    encode_utf8(s).len()
}

/// The three characters that would break the IRC line protocol.
pub open spec fn is_protocol_char(c: char) -> bool {
    c == '\r' || c == '\n' || c == '\0'
}

/// The bytes CR, LF and NUL.
pub open spec fn is_protocol_byte(b: u8) -> bool {
    b == 13 || b == 10 || b == 0
}

/// Whether the byte sequence `bs` holds a CR, LF or NUL byte.
pub open spec fn has_protocol_byte(bs: Seq<u8>) -> bool {
    exists|i: int| 0 <= i < bs.len() && is_protocol_byte(#[trigger] bs[i])
}

/// Whether `s` holds a CR, LF or NUL.
pub open spec fn has_protocol_char(s: Seq<char>) -> bool {
    exists|i: int| 0 <= i < s.len() && is_protocol_char(#[trigger] s[i])
}

/// Characters a target name may not hold: white space and the IRC target
/// separator `,`.
pub open spec fn is_target_forbidden(c: char) -> bool {
    is_unicode_whitespace(c) || c == ','
}

/// The prefixes a channel name must start with.
pub open spec fn is_channel_prefix(c: char) -> bool {
    c == '#' || c == '&' || c == '+' || c == '!'
}

/// White space other than the plain space, which a mode string may not hold.
pub open spec fn is_mode_forbidden(c: char) -> bool {
    is_unicode_whitespace(c) && c != ' '
}

/// The characters a timer name is made of: `[A-Za-z0-9_-]`.
pub open spec fn is_timer_char(c: char) -> bool {
    is_ascii_alnum(c) || c == '_' || c == '-'
}

/// The error `Text::parse` gives for `s`, or `None` where it accepts `s`.
pub open spec fn text_error(s: Seq<char>) -> Option<InvalidPayload> {
    if byte_len(s) > MAX_TEXT_LEN {
        Some(InvalidPayload::TooLong { max: MAX_TEXT_LEN })
    } else if has_protocol_char(s) {
        Some(InvalidPayload::ProtocolChar)
    } else {
        None
    }
}

/// The checks shared by the name-like payloads: non-empty, at most
/// `MAX_NAME_LEN` bytes, no CR/LF/NUL.
pub open spec fn name_error(s: Seq<char>) -> Option<InvalidPayload> {
    if s.len() == 0 {
        Some(InvalidPayload::Empty)
    } else if byte_len(s) > MAX_NAME_LEN {
        Some(InvalidPayload::TooLong { max: MAX_NAME_LEN })
    } else if has_protocol_char(s) {
        Some(InvalidPayload::ProtocolChar)
    } else {
        None
    }
}

/// `ForbiddenChar` for the first character of `s` that `p` forbids.
pub open spec fn forbidden_error(s: Seq<char>, p: spec_fn(char) -> bool) -> Option<
    InvalidPayload,
> {
    match find_first(s, p) {
        Some(c) => Some(InvalidPayload::ForbiddenChar(c)),
        None => None,
    }
}

/// The error `TargetName::parse` gives for `s`, or `None` where it accepts `s`.
pub open spec fn target_name_error(s: Seq<char>) -> Option<InvalidPayload> {
    match name_error(s) {
        Some(e) => Some(e),
        None => forbidden_error(s, |c: char| is_target_forbidden(c)),
    }
}

/// The error `ChannelName::parse` gives for `s`, or `None` where it accepts `s`.
pub open spec fn channel_name_error(s: Seq<char>) -> Option<InvalidPayload> {
    match name_error(s) {
        Some(e) => Some(e),
        None => if !is_channel_prefix(s[0]) {
            Some(InvalidPayload::ForbiddenChar(s[0]))
        } else {
            forbidden_error(s, |c: char| is_target_forbidden(c))
        },
    }
}

/// The error `ModeString::parse` gives for `s`, or `None` where it accepts `s`.
pub open spec fn mode_string_error(s: Seq<char>) -> Option<InvalidPayload> {
    match name_error(s) {
        Some(e) => Some(e),
        None => forbidden_error(s, |c: char| is_mode_forbidden(c)),
    }
}

/// The error `TimerName::parse` gives for `s`, or `None` where it accepts `s`.
pub open spec fn timer_name_error(s: Seq<char>) -> Option<InvalidPayload> {
    if s.len() == 0 {
        Some(InvalidPayload::Empty)
    } else if byte_len(s) > MAX_NAME_LEN {
        Some(InvalidPayload::TooLong { max: MAX_NAME_LEN })
    } else {
        forbidden_error(s, |c: char| !is_timer_char(c))
    }
}

/// How a checking function's result relates to the model's verdict `e` on
/// its input.
pub open spec fn checked(res: Result<(), InvalidPayload>, e: Option<InvalidPayload>) -> bool {
    match res {
        Ok(()) => e is None,
        Err(err) => e == Some(err),
    }
}

// ---------------------------------------------------------------------------
// Shared checks.
// ---------------------------------------------------------------------------

fn protocol_char(c: char) -> (b: bool)
    ensures
        b == is_protocol_char(c),
{
    c == '\r' || c == '\n' || c == '\0'
}

fn target_forbidden(c: char) -> (b: bool)
    ensures
        b == is_target_forbidden(c),
{
    is_whitespace(c) || c == ','
}

fn mode_forbidden(c: char) -> (b: bool)
    ensures
        b == is_mode_forbidden(c),
{
    is_whitespace(c) && c != ' '
}

fn not_timer_char(c: char) -> (b: bool)
    ensures
        b == !is_timer_char(c),
{
    !(is_ascii_alphanumeric(c) || c == '_' || c == '-')
}

/// Byte length of `s`.
fn utf8_len(s: &str) -> (n: usize)
    ensures
        n == byte_len(s@),
{
    broadcast use vstd::slice::group_slice_axioms;

    s.as_bytes().len()
}

/// Rejects the three bytes that would break the IRC line protocol:
/// CR, LF and NUL. Formatting control codes are fine.
fn reject_protocol_chars(s: &str) -> (res: Result<(), InvalidPayload>)
    ensures
        checked(
            res,
            if has_protocol_char(s@) {
                Some(InvalidPayload::ProtocolChar)
            } else {
                None
            },
        ),
{
    let found = find_char(
        s,
        protocol_char,
        Ghost(|c: char| is_protocol_char(c)),
    );
    proof {
        lemma_find_first(s@, |c: char| is_protocol_char(c));
    }
    if found.is_some() {
        return Err(InvalidPayload::ProtocolChar);
    }
    Ok(())
}

/// The validation shared by name-like fields: non-empty, bounded, no CR/LF/NUL.
fn validate_name(s: &str) -> (res: Result<(), InvalidPayload>)
    ensures
        checked(res, name_error(s@)),
{
    if s.is_empty() {
        return Err(InvalidPayload::Empty);
    }
    if utf8_len(s) > MAX_NAME_LEN {
        return Err(InvalidPayload::TooLong { max: MAX_NAME_LEN });
    }
    reject_protocol_chars(s)
}

/// `ForbiddenChar` for the first character of `s` that is white space or `,`.
fn reject_target_forbidden(s: &str) -> (res: Result<(), InvalidPayload>)
    ensures
        checked(res, forbidden_error(s@, |c: char| is_target_forbidden(c))),
{
    let found = find_char(
        s,
        target_forbidden,
        Ghost(|c: char| is_target_forbidden(c)),
    );
    match found {
        Some(c) => Err(InvalidPayload::ForbiddenChar(c)),
        None => Ok(()),
    }
}

// ---------------------------------------------------------------------------
// The payload types.
// ---------------------------------------------------------------------------

/// A single-line text payload (message, notice, action, echo, notify body).
///
/// Guarantees: no CR/LF/NUL, at most [`MAX_TEXT_LEN`] bytes. May be empty (an
/// empty NOTICE is legal) and may contain formatting control codes.
#[derive(Debug, PartialEq, Eq)]
pub struct Text(String);

impl View for Text {
    type V = Seq<char>;

    closed spec fn view(&self) -> Seq<char> {
        self.0@
    }
}

impl Clone for Text {
    /// A copy holding the same characters.
    fn clone(&self) -> (res: Self)
        ensures
            res@ == self@,
    {
        proof {
            use_type_invariant(self);
        }
        Text(self.0.clone())
    }
}

impl Text {
    #[verifier::type_invariant]
    closed spec fn inv(self) -> bool {
        text_error(self.0@) is None
    }

    /// Validates `s` as a text payload.
    pub fn parse(s: String) -> (res: Result<Self, InvalidPayload>)
        ensures
            match res {
                Ok(t) => text_error(s@) is None && t@ == s@,
                Err(e) => text_error(s@) == Some(e),
            },
    {
        if utf8_len(s.as_str()) > MAX_TEXT_LEN {
            return Err(InvalidPayload::TooLong { max: MAX_TEXT_LEN });
        }
        reject_protocol_chars(s.as_str())?;
        Ok(Text(s))
    }

    /// The validated text.
    pub fn as_str(&self) -> (res: &str)
        ensures
            res@ == self@,
            text_error(res@) is None,
    {
        proof {
            use_type_invariant(self);
        }
        self.0.as_str()
    }
}

/// A message target name (a nick or channel used as a destination).
///
/// Guarantees: non-empty, at most [`MAX_NAME_LEN`] bytes, no white space, no
/// CR/LF/NUL, and no `,` (the IRC target separator).
#[derive(Debug, PartialEq, Eq)]
pub struct TargetName(String);

impl View for TargetName {
    type V = Seq<char>;

    closed spec fn view(&self) -> Seq<char> {
        self.0@
    }
}

impl Clone for TargetName {
    /// A copy holding the same characters.
    fn clone(&self) -> (res: Self)
        ensures
            res@ == self@,
    {
        proof {
            use_type_invariant(self);
        }
        TargetName(self.0.clone())
    }
}

impl TargetName {
    #[verifier::type_invariant]
    closed spec fn inv(self) -> bool {
        target_name_error(self.0@) is None
    }

    /// Validates `s` as a target name.
    pub fn parse(s: String) -> (res: Result<Self, InvalidPayload>)
        ensures
            match res {
                Ok(t) => target_name_error(s@) is None && t@ == s@,
                Err(e) => target_name_error(s@) == Some(e),
            },
    {
        validate_name(s.as_str())?;
        reject_target_forbidden(s.as_str())?;
        Ok(TargetName(s))
    }

    /// The validated name.
    pub fn as_str(&self) -> (res: &str)
        ensures
            res@ == self@,
            target_name_error(res@) is None,
    {
        proof {
            use_type_invariant(self);
        }
        self.0.as_str()
    }
}

/// A channel name. Same guarantees as [`TargetName`], plus it must begin with
/// a channel prefix (`#`, `&`, `+`, `!`), so a script's join or part cannot
/// be aimed at a bare nick.
#[derive(Debug, PartialEq, Eq)]
pub struct ChannelName(String);

impl View for ChannelName {
    type V = Seq<char>;

    closed spec fn view(&self) -> Seq<char> {
        self.0@
    }
}

impl Clone for ChannelName {
    /// A copy holding the same characters.
    fn clone(&self) -> (res: Self)
        ensures
            res@ == self@,
    {
        proof {
            use_type_invariant(self);
        }
        ChannelName(self.0.clone())
    }
}

impl ChannelName {
    #[verifier::type_invariant]
    closed spec fn inv(self) -> bool {
        channel_name_error(self.0@) is None
    }

    /// Validates `s` as a channel name.
    pub fn parse(s: String) -> (res: Result<Self, InvalidPayload>)
        ensures
            match res {
                Ok(t) => channel_name_error(s@) is None && t@ == s@,
                Err(e) => channel_name_error(s@) == Some(e),
            },
    {
        broadcast use vstd::string::group_string_axioms;

        validate_name(s.as_str())?;
        let mut it = s.as_str().chars();
        match it.next() {
            Some(c) => {
                if !(c == '#' || c == '&' || c == '+' || c == '!') {
                    return Err(InvalidPayload::ForbiddenChar(c));
                }
            },
            None => {
                return Err(InvalidPayload::Empty);
            },
        }
        reject_target_forbidden(s.as_str())?;
        Ok(ChannelName(s))
    }

    /// The validated name.
    pub fn as_str(&self) -> (res: &str)
        ensures
            res@ == self@,
            channel_name_error(res@) is None,
    {
        proof {
            use_type_invariant(self);
        }
        self.0.as_str()
    }
}

/// A mode change string (e.g. `+o`, `-b`, `+mnt`). Guarantees: non-empty,
/// bounded, no CR/LF/NUL. Parameters are separated by plain spaces only: no
/// other white space.
#[derive(Debug, PartialEq, Eq)]
pub struct ModeString(String);

impl View for ModeString {
    type V = Seq<char>;

    closed spec fn view(&self) -> Seq<char> {
        self.0@
    }
}

impl Clone for ModeString {
    /// A copy holding the same characters.
    fn clone(&self) -> (res: Self)
        ensures
            res@ == self@,
    {
        proof {
            use_type_invariant(self);
        }
        ModeString(self.0.clone())
    }
}

impl ModeString {
    #[verifier::type_invariant]
    closed spec fn inv(self) -> bool {
        mode_string_error(self.0@) is None
    }

    /// Validates `s` as a mode string.
    pub fn parse(s: String) -> (res: Result<Self, InvalidPayload>)
        ensures
            match res {
                Ok(t) => mode_string_error(s@) is None && t@ == s@,
                Err(e) => mode_string_error(s@) == Some(e),
            },
    {
        if s.as_str().is_empty() {
            return Err(InvalidPayload::Empty);
        }
        if utf8_len(s.as_str()) > MAX_NAME_LEN {
            return Err(InvalidPayload::TooLong { max: MAX_NAME_LEN });
        }
        reject_protocol_chars(s.as_str())?;
        // A plain space may separate the mode flags from their parameters;
        // no other white space is allowed.
        let found = find_char(
            s.as_str(),
            mode_forbidden,
            Ghost(|c: char| is_mode_forbidden(c)),
        );
        if let Some(c) = found {
            return Err(InvalidPayload::ForbiddenChar(c));
        }
        Ok(ModeString(s))
    }

    /// The validated mode string.
    pub fn as_str(&self) -> (res: &str)
        ensures
            res@ == self@,
            mode_string_error(res@) is None,
    {
        proof {
            use_type_invariant(self);
        }
        self.0.as_str()
    }
}

/// A timer identifier. Guarantees: non-empty, bounded, and restricted to
/// `[A-Za-z0-9_-]` so it can be used as a stable key.
#[derive(Debug, PartialEq, Eq)]
pub struct TimerName(String);

impl View for TimerName {
    type V = Seq<char>;

    closed spec fn view(&self) -> Seq<char> {
        self.0@
    }
}

impl Clone for TimerName {
    /// A copy holding the same characters.
    fn clone(&self) -> (res: Self)
        ensures
            res@ == self@,
    {
        proof {
            use_type_invariant(self);
        }
        TimerName(self.0.clone())
    }
}

impl TimerName {
    #[verifier::type_invariant]
    closed spec fn inv(self) -> bool {
        timer_name_error(self.0@) is None
    }

    /// Validates `s` as a timer name.
    pub fn parse(s: String) -> (res: Result<Self, InvalidPayload>)
        ensures
            match res {
                Ok(t) => timer_name_error(s@) is None && t@ == s@,
                Err(e) => timer_name_error(s@) == Some(e),
            },
    {
        if s.as_str().is_empty() {
            return Err(InvalidPayload::Empty);
        }
        if utf8_len(s.as_str()) > MAX_NAME_LEN {
            return Err(InvalidPayload::TooLong { max: MAX_NAME_LEN });
        }
        let found = find_char(
            s.as_str(),
            not_timer_char,
            Ghost(|c: char| !is_timer_char(c)),
        );
        if let Some(c) = found {
            return Err(InvalidPayload::ForbiddenChar(c));
        }
        Ok(TimerName(s))
    }

    /// The validated timer name.
    pub fn as_str(&self) -> (res: &str)
        ensures
            res@ == self@,
            timer_name_error(res@) is None,
    {
        proof {
            use_type_invariant(self);
        }
        self.0.as_str()
    }
}

/// A destination for outgoing text or commands, resolved by the host against
/// the active server and buffer of the triggering event.
#[derive(Debug, Clone, PartialEq, Eq)]
pub enum Target {
    /// The channel or query the current event belongs to.
    Current,
    /// A validated named channel or nick.
    Named(TargetName),
}

/// An action requested by a script, to be validated and applied by the host.
/// Every field is a validated newtype, so an ill-formed effect cannot exist.
#[derive(Debug, Clone, PartialEq, Eq)]
pub enum ScriptEffect {
    /// Send a PRIVMSG to a target.
    Send { target: Target, text: Text },
    /// Send a NOTICE to a target.
    Notice { target: Target, text: Text },
    /// Send a CTCP ACTION (`/me`) to a target.
    Action { target: Target, text: Text },
    /// Join a channel.
    Join { channel: ChannelName },
    /// Part a channel, optionally with a reason.
    Part { channel: ChannelName, reason: Option<Text> },
    /// Set a channel or user mode string.
    Mode { target: Target, modes: ModeString },
    /// Print a line to a buffer in the client.
    Echo { target: Target, text: Text },
    /// Raise a desktop notification.
    Notify { title: Text, body: Text },
    /// Register (or replace) a script timer that re-enters the engine with a
    /// timer event after `delay_ms`, repeating `repeat` more times (`None`:
    /// until cancelled).
    SetTimer { name: TimerName, delay_ms: u64, repeat: Option<u64> },
    /// Cancel a previously registered timer by name.
    CancelTimer { name: TimerName },
}

// ---------------------------------------------------------------------------
// Guarantees of the validated payloads.
// ---------------------------------------------------------------------------

/// No protocol injection: every payload that a constructor accepts is free of
/// CR, LF and NUL, as characters and as bytes of its UTF-8 encoding; timer
/// names included (their alphabet excludes them).
pub proof fn lemma_accepted_payloads_have_no_protocol_chars(s: Seq<char>)
    ensures
        text_error(s) is None ==> !has_protocol_char(s) && !has_protocol_byte(encode_utf8(s)),
        target_name_error(s) is None ==> !has_protocol_char(s) && !has_protocol_byte(
            encode_utf8(s),
        ),
        channel_name_error(s) is None ==> !has_protocol_char(s) && !has_protocol_byte(
            encode_utf8(s),
        ),
        mode_string_error(s) is None ==> !has_protocol_char(s) && !has_protocol_byte(
            encode_utf8(s),
        ),
        timer_name_error(s) is None ==> !has_protocol_char(s) && !has_protocol_byte(
            encode_utf8(s),
        ),
{
    lemma_protocol_bytes_are_protocol_chars(s);
    lemma_find_first(s, |c: char| !is_timer_char(c));
    if timer_name_error(s) is None {
        assert forall|i: int| 0 <= i < s.len() implies !is_protocol_char(#[trigger] s[i]) by {
            assert(is_timer_char(s[i]));
        }
    }
}

/// Every payload is length-capped in bytes; names are non-empty; a text may
/// be empty.
pub proof fn lemma_accepted_payloads_are_bounded(s: Seq<char>)
    ensures
        text_error(s) is None <==> (byte_len(s) <= MAX_TEXT_LEN && !has_protocol_char(s)),
        target_name_error(s) is None ==> 0 < s.len() && byte_len(s) <= MAX_NAME_LEN,
        channel_name_error(s) is None ==> 0 < s.len() && byte_len(s) <= MAX_NAME_LEN,
        mode_string_error(s) is None ==> 0 < s.len() && byte_len(s) <= MAX_NAME_LEN,
        timer_name_error(s) is None ==> 0 < s.len() && byte_len(s) <= MAX_NAME_LEN,
{
}

/// No target smuggling: an accepted target or channel name holds no white
/// space and no `,`, so one message cannot fan out to unintended targets.
pub proof fn lemma_accepted_targets_have_no_separators(s: Seq<char>)
    ensures
        target_name_error(s) is None ==> forall|i: int|
            0 <= i < s.len() ==> !is_target_forbidden(#[trigger] s[i]),
        channel_name_error(s) is None ==> forall|i: int|
            0 <= i < s.len() ==> !is_target_forbidden(#[trigger] s[i]),
{
    lemma_find_first(s, |c: char| is_target_forbidden(c));
}

/// A channel name is a target name that starts with a channel prefix, so a
/// join or part can never be aimed at a bare nick.
pub proof fn lemma_channel_names_are_prefixed_targets(s: Seq<char>)
    ensures
        channel_name_error(s) is None <==> (target_name_error(s) is None && is_channel_prefix(
            s[0],
        )),
{
}

/// The only white space an accepted mode string holds is the plain space.
pub proof fn lemma_accepted_modes_use_plain_spaces(s: Seq<char>)
    ensures
        mode_string_error(s) is None ==> forall|i: int|
            0 <= i < s.len() && is_unicode_whitespace(#[trigger] s[i]) ==> s[i] == ' ',
{
    lemma_find_first(s, |c: char| is_mode_forbidden(c));
}

/// An accepted timer name is made of `[A-Za-z0-9_-]` only.
pub proof fn lemma_accepted_timers_use_key_alphabet(s: Seq<char>)
    ensures
        timer_name_error(s) is None <==> (0 < s.len() && byte_len(s) <= MAX_NAME_LEN && forall|
            i: int,
        | 0 <= i < s.len() ==> is_timer_char(#[trigger] s[i])),
{
    lemma_find_first(s, |c: char| !is_timer_char(c));
}

/// A `ForbiddenChar` rejection names the earliest offending character of the
/// input: it occurs in the input, it is forbidden there, and every character
/// before it is allowed.
pub proof fn lemma_forbidden_char_is_first_offender(s: Seq<char>, p: spec_fn(char) -> bool, c: char)
    requires
        forbidden_error(s, p) == Some(InvalidPayload::ForbiddenChar(c)),
    ensures
        exists|i: int|
            0 <= i < s.len() && #[trigger] s[i] == c && p(c) && (forall|j: int|
                0 <= j < i ==> !p(#[trigger] s[j])),
{
    lemma_find_first(s, p);
}

/// What a `Text` verdict means: a text is accepted exactly when it is at most
/// `MAX_TEXT_LEN` bytes with no CR/LF/NUL; an over-long text is refused as
/// `TooLong` with the cap, whatever else it holds; a text within the cap that
/// holds CR/LF/NUL is refused as `ProtocolChar`; nothing else is refused.
pub proof fn lemma_text_verdict(s: Seq<char>)
    ensures
        text_error(s) is None <==> (byte_len(s) <= MAX_TEXT_LEN && !has_protocol_char(s)),
        byte_len(s) > MAX_TEXT_LEN ==> text_error(s) == Some(
            InvalidPayload::TooLong { max: MAX_TEXT_LEN },
        ),
        byte_len(s) <= MAX_TEXT_LEN && has_protocol_char(s) ==> text_error(s) == Some(
            InvalidPayload::ProtocolChar,
        ),
        text_error(s) matches Some(e) ==> (e == InvalidPayload::TooLong { max: MAX_TEXT_LEN }
            || e == InvalidPayload::ProtocolChar),
{
}

/// What a `TargetName` verdict means. A name is accepted exactly when it is
/// non-empty, at most `MAX_NAME_LEN` bytes, free of CR/LF/NUL and holds no
/// white space or `,`. Each refusal names its cause: `Empty` only for the
/// empty string; `TooLong` with the cap for any non-empty name over the cap;
/// `ProtocolChar` for a name within the cap that holds CR/LF/NUL; otherwise
/// `ForbiddenChar(c)` where `c` is the first white-space or `,` character.
pub proof fn lemma_target_name_verdict(s: Seq<char>)
    ensures
        target_name_error(s) is None <==> (0 < s.len() && byte_len(s) <= MAX_NAME_LEN
            && !has_protocol_char(s) && forall|i: int|
            0 <= i < s.len() ==> !is_target_forbidden(#[trigger] s[i])),
        s.len() == 0 <==> target_name_error(s) == Some(InvalidPayload::Empty),
        0 < s.len() && byte_len(s) > MAX_NAME_LEN ==> target_name_error(s) == Some(
            InvalidPayload::TooLong { max: MAX_NAME_LEN },
        ),
        0 < s.len() && byte_len(s) <= MAX_NAME_LEN && has_protocol_char(s) ==> target_name_error(
            s,
        ) == Some(InvalidPayload::ProtocolChar),
        target_name_error(s) matches Some(InvalidPayload::TooLong { max }) ==> max
            == MAX_NAME_LEN && byte_len(s) > MAX_NAME_LEN,
        target_name_error(s) == Some(InvalidPayload::ProtocolChar) ==> has_protocol_char(s),
        target_name_error(s) matches Some(InvalidPayload::ForbiddenChar(c)) ==> exists|i: int|
            0 <= i < s.len() && #[trigger] s[i] == c && is_target_forbidden(c) && (forall|j: int|
                0 <= j < i ==> !is_target_forbidden(#[trigger] s[j])),
{
    lemma_find_first(s, |c: char| is_target_forbidden(c));
}

/// What a `ChannelName` verdict means. A name is accepted exactly when it is
/// non-empty, at most `MAX_NAME_LEN` bytes, free of CR/LF/NUL, starts with
/// `#`, `&`, `+` or `!` and holds no white space or `,` (later characters may
/// be anything else, prefixes included). Each refusal names its cause:
/// `Empty`, `TooLong` and `ProtocolChar` as for target names; a name that
/// passes those and starts with another character is refused with that first
/// character; otherwise `ForbiddenChar(c)` names the first white-space or `,`
/// character.
pub proof fn lemma_channel_name_verdict(s: Seq<char>)
    ensures
        channel_name_error(s) is None <==> (0 < s.len() && byte_len(s) <= MAX_NAME_LEN
            && !has_protocol_char(s) && is_channel_prefix(s[0]) && forall|i: int|
            0 <= i < s.len() ==> !is_target_forbidden(#[trigger] s[i])),
        s.len() == 0 <==> channel_name_error(s) == Some(InvalidPayload::Empty),
        0 < s.len() && byte_len(s) > MAX_NAME_LEN ==> channel_name_error(s) == Some(
            InvalidPayload::TooLong { max: MAX_NAME_LEN },
        ),
        0 < s.len() && byte_len(s) <= MAX_NAME_LEN && has_protocol_char(s) ==> channel_name_error(
            s,
        ) == Some(InvalidPayload::ProtocolChar),
        0 < s.len() && byte_len(s) <= MAX_NAME_LEN && !has_protocol_char(s) && !is_channel_prefix(
            s[0],
        ) ==> channel_name_error(s) == Some(InvalidPayload::ForbiddenChar(s[0])),
        channel_name_error(s) matches Some(InvalidPayload::TooLong { max }) ==> max
            == MAX_NAME_LEN && byte_len(s) > MAX_NAME_LEN,
        channel_name_error(s) == Some(InvalidPayload::ProtocolChar) ==> has_protocol_char(s),
        channel_name_error(s) matches Some(InvalidPayload::ForbiddenChar(c)) ==> (c == s[0]
            && !is_channel_prefix(c)) || (is_channel_prefix(s[0]) && exists|i: int|
            0 <= i < s.len() && #[trigger] s[i] == c && is_target_forbidden(c) && (forall|j: int|
                0 <= j < i ==> !is_target_forbidden(#[trigger] s[j]))),
{
    lemma_find_first(s, |c: char| is_target_forbidden(c));
}

/// What a `ModeString` verdict means. A mode string is accepted exactly when
/// it is non-empty, at most `MAX_NAME_LEN` bytes, free of CR/LF/NUL and holds
/// no white space other than the plain space (flags, digits, masks and any
/// other characters are fine). Each refusal names its cause: `Empty`,
/// `TooLong` and `ProtocolChar` as for target names; otherwise
/// `ForbiddenChar(c)` names the first white-space character other than ' '.
pub proof fn lemma_mode_string_verdict(s: Seq<char>)
    ensures
        mode_string_error(s) is None <==> (0 < s.len() && byte_len(s) <= MAX_NAME_LEN
            && !has_protocol_char(s) && forall|i: int|
            0 <= i < s.len() ==> !is_mode_forbidden(#[trigger] s[i])),
        s.len() == 0 <==> mode_string_error(s) == Some(InvalidPayload::Empty),
        0 < s.len() && byte_len(s) > MAX_NAME_LEN ==> mode_string_error(s) == Some(
            InvalidPayload::TooLong { max: MAX_NAME_LEN },
        ),
        0 < s.len() && byte_len(s) <= MAX_NAME_LEN && has_protocol_char(s) ==> mode_string_error(
            s,
        ) == Some(InvalidPayload::ProtocolChar),
        mode_string_error(s) matches Some(InvalidPayload::TooLong { max }) ==> max
            == MAX_NAME_LEN && byte_len(s) > MAX_NAME_LEN,
        mode_string_error(s) == Some(InvalidPayload::ProtocolChar) ==> has_protocol_char(s),
        mode_string_error(s) matches Some(InvalidPayload::ForbiddenChar(c)) ==> exists|i: int|
            0 <= i < s.len() && #[trigger] s[i] == c && is_unicode_whitespace(c) && c != ' '
                && (forall|j: int| 0 <= j < i ==> !is_mode_forbidden(#[trigger] s[j])),
{
    lemma_find_first(s, |c: char| is_mode_forbidden(c));
}

/// What a `TimerName` verdict means. A timer name is accepted exactly when it
/// is non-empty, at most `MAX_NAME_LEN` bytes and made of `[A-Za-z0-9_-]`.
/// `Empty` only for the empty string; `TooLong` with the cap for any
/// non-empty name over the cap; otherwise `ForbiddenChar(c)` names the first
/// character outside the alphabet (CR, LF and NUL included).
pub proof fn lemma_timer_name_verdict(s: Seq<char>)
    ensures
        timer_name_error(s) is None <==> (0 < s.len() && byte_len(s) <= MAX_NAME_LEN && forall|
            i: int,
        | 0 <= i < s.len() ==> is_timer_char(#[trigger] s[i])),
        s.len() == 0 <==> timer_name_error(s) == Some(InvalidPayload::Empty),
        0 < s.len() && byte_len(s) > MAX_NAME_LEN ==> timer_name_error(s) == Some(
            InvalidPayload::TooLong { max: MAX_NAME_LEN },
        ),
        timer_name_error(s) matches Some(InvalidPayload::TooLong { max }) ==> max
            == MAX_NAME_LEN && byte_len(s) > MAX_NAME_LEN,
        timer_name_error(s) != Some(InvalidPayload::ProtocolChar),
        timer_name_error(s) matches Some(InvalidPayload::ForbiddenChar(c)) ==> exists|i: int|
            0 <= i < s.len() && #[trigger] s[i] == c && !is_timer_char(c) && (forall|j: int|
                0 <= j < i ==> is_timer_char(#[trigger] s[j])),
{
    lemma_find_first(s, |c: char| !is_timer_char(c));
}

/// The UTF-8 encoding of one character holds a CR, LF or NUL byte exactly
/// when the character is CR, LF or NUL: every byte of a multi-byte encoding
/// has its high bit set.
proof fn lemma_encode_scalar_protocol_bytes(c: char)
    ensures
        has_protocol_byte(encode_scalar(c as u32)) <==> is_protocol_char(c),
{
    let v = c as u32;
    let bs = encode_scalar(v);
    if has_width_1_encoding(v) {
        let b0 = bs[0];
        assert(b0 == (v & 0x7F) as u8);
        assert(b0 == v) by (bit_vector)
            requires
                b0 == (v & 0x7F) as u8,
                v <= 0x7F,
        ;
        if has_protocol_byte(bs) {
            assert(is_protocol_byte(bs[0]));
        }
        if is_protocol_char(c) {
            assert(is_protocol_byte(bs[0]));
        }
    } else {
        assert forall|i: int| 0 <= i < bs.len() implies #[trigger] bs[i] >= 0x80 by {
            if has_width_2_encoding(v) {
                if i == 0 {
                    assert(0xC0u8 | ((v >> 6) & 0x1F) as u8 >= 0x80) by (bit_vector);
                } else {
                    assert(0x80u8 | (v & 0x3F) as u8 >= 0x80) by (bit_vector);
                }
            } else if has_width_3_encoding(v) {
                if i == 0 {
                    assert(0xE0u8 | ((v >> 12) & 0x0F) as u8 >= 0x80) by (bit_vector);
                } else if i == 1 {
                    assert(0x80u8 | ((v >> 6) & 0x3F) as u8 >= 0x80) by (bit_vector);
                } else {
                    assert(0x80u8 | (v & 0x3F) as u8 >= 0x80) by (bit_vector);
                }
            } else {
                if i == 0 {
                    assert(0xF0u8 | ((v >> 18) & 0x7) as u8 >= 0x80) by (bit_vector);
                } else if i == 1 {
                    assert(0x80u8 | ((v >> 12) & 0x3F) as u8 >= 0x80) by (bit_vector);
                } else if i == 2 {
                    assert(0x80u8 | ((v >> 6) & 0x3F) as u8 >= 0x80) by (bit_vector);
                } else {
                    assert(0x80u8 | (v & 0x3F) as u8 >= 0x80) by (bit_vector);
                }
            }
        }
    }
}

/// What goes on the wire: the UTF-8 bytes of `s` hold a CR, LF or NUL byte
/// exactly when `s` holds a CR, LF or NUL character. So a payload accepted
/// for having no such character puts no such byte on the line.
pub proof fn lemma_protocol_bytes_are_protocol_chars(s: Seq<char>)
    ensures
        has_protocol_byte(encode_utf8(s)) <==> has_protocol_char(s),
    decreases s.len(),
{
    if s.len() > 0 {
        let head = encode_scalar(s[0] as u32);
        let tail = s.drop_first();
        let rest = encode_utf8(tail);
        lemma_protocol_bytes_are_protocol_chars(tail);
        lemma_encode_scalar_protocol_bytes(s[0]);
        assert(encode_utf8(s) == head + rest);
        if has_protocol_byte(encode_utf8(s)) {
            let i = choose|i: int|
                0 <= i < encode_utf8(s).len() && is_protocol_byte(#[trigger] encode_utf8(s)[i]);
            if i < head.len() {
                assert(is_protocol_byte(head[i]));
                assert(is_protocol_char(s[0]));
            } else {
                assert(is_protocol_byte(rest[i - head.len()]));
                let j = choose|j: int| 0 <= j < tail.len() && is_protocol_char(#[trigger] tail[j]);
                assert(s[j + 1] == tail[j]);
            }
        }
        if has_protocol_char(s) {
            let j = choose|j: int| 0 <= j < s.len() && is_protocol_char(#[trigger] s[j]);
            if j == 0 {
                let i = choose|i: int| 0 <= i < head.len() && is_protocol_byte(#[trigger] head[i]);
                assert(encode_utf8(s)[i] == head[i]);
            } else {
                assert(tail[j - 1] == s[j]);
                let i = choose|i: int| 0 <= i < rest.len() && is_protocol_byte(#[trigger] rest[i]);
                assert(encode_utf8(s)[i + head.len()] == rest[i]);
            }
        }
    }
}

} // verus!
