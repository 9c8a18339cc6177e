//! The options that a slash command arrives with, and how the bot looks them up.

use vstd::prelude::*;

use crate::text::same_text;

verus! {

/// The type of a slash-command option, as Discord numbers them.
#[derive(Clone, Copy, Debug, PartialEq, Eq, Structural)]
pub enum OptionKind {
    SubCommand,
    SubCommandGroup,
    String,
    Integer,
    Boolean,
    User,
    Channel,
    Role,
    Mentionable,
    Number,
    Attachment,
    Unknown(u8),
}

/// The kinds of option value whose payload the bot never reads.
#[derive(Clone, Copy, Debug, PartialEq, Eq, Structural)]
pub enum OtherKind {
    SubCommand,
    SubCommandGroup,
    Integer,
    User,
    Channel,
    Role,
    Mentionable,
    Number,
    Attachment,
    Unknown(u8),
}

/// The value of an option: text and flags are held as they are; every other
/// value is held by its kind alone, since nothing here reads it.
#[derive(Clone, Debug)]
pub enum OptionValue {
    /// A value typed while Discord asks for completions, with the kind it will have.
    Autocomplete { kind: OptionKind, value: String },
    Boolean(bool),
    String(String),
    Other(OtherKind),
}

/// One option of an incoming command: its name and its value.
#[derive(Clone, Debug)]
pub struct CommandOption {
    pub name: String,
    pub value: OptionValue,
}

/// The option kind that stands for an unread value kind.
pub open spec fn other_kind_spec(k: OtherKind) -> OptionKind {
    match k {
        OtherKind::SubCommand => OptionKind::SubCommand,
        OtherKind::SubCommandGroup => OptionKind::SubCommandGroup,
        OtherKind::Integer => OptionKind::Integer,
        OtherKind::User => OptionKind::User,
        OtherKind::Channel => OptionKind::Channel,
        OtherKind::Role => OptionKind::Role,
        OtherKind::Mentionable => OptionKind::Mentionable,
        OtherKind::Number => OptionKind::Number,
        OtherKind::Attachment => OptionKind::Attachment,
        OtherKind::Unknown(n) => OptionKind::Unknown(n),
    }
}

impl OtherKind {
    /// The option kind of a value of this kind.
    pub fn option_kind(&self) -> (r: OptionKind)
        ensures
            r == other_kind_spec(*self),
    {
        match *self {
            OtherKind::SubCommand => OptionKind::SubCommand,
            OtherKind::SubCommandGroup => OptionKind::SubCommandGroup,
            OtherKind::Integer => OptionKind::Integer,
            OtherKind::User => OptionKind::User,
            OtherKind::Channel => OptionKind::Channel,
            OtherKind::Role => OptionKind::Role,
            OtherKind::Mentionable => OptionKind::Mentionable,
            OtherKind::Number => OptionKind::Number,
            OtherKind::Attachment => OptionKind::Attachment,
            OtherKind::Unknown(n) => OptionKind::Unknown(n),
        }
    }
}

impl OptionValue {
    /// The kind of this value; a completion carries the kind it was asked for.
    pub open spec fn kind_spec(self) -> OptionKind {
        match self {
            OptionValue::Autocomplete { kind, .. } => kind,
            OptionValue::Boolean(_) => OptionKind::Boolean,
            OptionValue::String(_) => OptionKind::String,
            OptionValue::Other(k) => other_kind_spec(k),
        }
    }

    /// The text of a string value or of a completion.
    pub open spec fn text_spec(self) -> Option<Seq<char>> {
        match self {
            OptionValue::String(s) => Some(s@),
            OptionValue::Autocomplete { value, .. } => Some(value@),
            _ => None,
        }
    }

    /// The flag of a boolean value.
    pub open spec fn flag_spec(self) -> Option<bool> {
        match self {
            OptionValue::Boolean(b) => Some(b),
            _ => None,
        }
    }

    pub fn kind(&self) -> (r: OptionKind)
        ensures
            r == self.kind_spec(),
    {
        match self {
            OptionValue::Autocomplete { kind, .. } => *kind,
            OptionValue::Boolean(_) => OptionKind::Boolean,
            OptionValue::String(_) => OptionKind::String,
            OptionValue::Other(k) => k.option_kind(),
        }
    }

    pub fn as_str(&self) -> (r: Option<&str>)
        ensures
            match r {
                Some(t) => self.text_spec() == Some(t@),
                None => self.text_spec() is None,
            },
    {
        match self {
            OptionValue::String(s) => Some(s.as_str()),
            OptionValue::Autocomplete { value, .. } => Some(value.as_str()),
            _ => None,
        }
    }

    pub fn as_bool(&self) -> (r: Option<bool>)
        ensures
            r == self.flag_spec(),
    {
        match self {
            OptionValue::Boolean(b) => Some(*b),
            _ => None,
        }
    }

    /// A copy of this value.
    pub fn duplicate(&self) -> (r: Self)
        ensures
            r == *self,
    {
        match self {
            OptionValue::Autocomplete { kind, value } => OptionValue::Autocomplete {
                kind: *kind,
                value: value.clone(),
            },
            OptionValue::Boolean(b) => OptionValue::Boolean(*b),
            OptionValue::String(s) => OptionValue::String(s.clone()),
            OptionValue::Other(k) => OptionValue::Other(*k),
        }
    }
}

/// The option `o` has the name and the kind that are asked for.
pub open spec fn option_matches(o: CommandOption, name: Seq<char>, kind: OptionKind) -> bool {
    o.name@ == name && o.value.kind_spec() == kind
}

/// The value of the first option in `options` with the given name and kind.
pub open spec fn lookup_option(options: Seq<CommandOption>, name: Seq<char>, kind: OptionKind) -> Option<OptionValue>
    decreases options.len(),
{
    if options.len() == 0 {
        None
    } else if option_matches(options[0], name, kind) {
        Some(options[0].value)
    } else {
        lookup_option(options.drop_first(), name, kind)
    }
}

/// A lookup gives the value of the first matching option, and nothing when no option matches.
pub proof fn lemma_lookup_is_first_match(options: Seq<CommandOption>, name: Seq<char>, kind: OptionKind)
    ensures
        lookup_option(options, name, kind) is None <==> forall|i: int|
            0 <= i < options.len() ==> !option_matches(#[trigger] options[i], name, kind),
        lookup_option(options, name, kind) matches Some(v) ==> exists|i: int|
            0 <= i < options.len() && option_matches(#[trigger] options[i], name, kind)
                && options[i].value == v && forall|j: int|
                0 <= j < i ==> !option_matches(#[trigger] options[j], name, kind),
    decreases options.len(),
{
    if options.len() > 0 {
        let rest = options.drop_first();
        lemma_lookup_is_first_match(rest, name, kind);
        if !option_matches(options[0], name, kind) {
            assert forall|i: int| 1 <= i < options.len() implies options[i] == rest[i - 1] by {}
            if lookup_option(rest, name, kind) is None {
                assert forall|i: int| 0 <= i < options.len() implies !option_matches(
                    #[trigger] options[i],
                    name,
                    kind,
                ) by {
                    if i > 0 {
                        assert(options[i] == rest[i - 1]);
                    }
                }
            } else {
                let v = lookup_option(rest, name, kind)->0;
                let k = choose|k: int|
                    0 <= k < rest.len() && option_matches(#[trigger] rest[k], name, kind)
                        && rest[k].value == v && forall|j: int|
                        0 <= j < k ==> !option_matches(#[trigger] rest[j], name, kind);
                assert(options[k + 1] == rest[k]);
                assert forall|j: int| 0 <= j < k + 1 implies !option_matches(
                    #[trigger] options[j],
                    name,
                    kind,
                ) by {
                    if j > 0 {
                        assert(options[j] == rest[j - 1]);
                    }
                }
                assert(!option_matches(options[k + 1], name, kind) == false);
            }
        }
    }
}

/// Finds the first option with the given name and kind and returns a copy of its value.
pub fn get_option_value(
    inbound: &[CommandOption],
    requested_name: &str,
    requested_kind: OptionKind,
) -> (r: Option<OptionValue>)
    ensures
        r == lookup_option(inbound@, requested_name@, requested_kind),
{
    let mut index: usize = 0;
    assert(inbound@.skip(0) =~= inbound@);
    while index < inbound.len()
        invariant
            index <= inbound@.len(),
            lookup_option(inbound@, requested_name@, requested_kind) == lookup_option(
                inbound@.skip(index as int),
                requested_name@,
                requested_kind,
            ),
        decreases inbound@.len() - index,
    {
        let option = &inbound[index];
        let ghost rest = inbound@.skip(index as int);
        assert(rest[0] == inbound@[index as int]);
        assert(rest.drop_first() =~= inbound@.skip(index + 1));
        if same_text(option.name.as_str(), requested_name) && option.value.kind() == requested_kind {
            return Some(option.value.duplicate());
        }
        index += 1;
    }
    assert(inbound@.skip(index as int).len() == 0);
    None
}

} // verus!
