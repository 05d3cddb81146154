//! Projection of per-field metadata into the wire shapes that describe a
//! record's accepted options.

use vstd::prelude::*;

use crate::locale::Localizations;

verus! {

/// The channel categories a channel-kind field may restrict its accepted
/// channels to, as tagged by the wire protocol.
#[derive(Clone, Copy, Debug, PartialEq, Eq, Structural)]
pub enum ChannelType {
    /// A text channel of a guild.
    GuildText,
    /// A direct-message channel.
    Private,
    /// A voice channel of a guild.
    GuildVoice,
    /// A group direct-message channel.
    Group,
    /// A category grouping other channels.
    GuildCategory,
    /// An announcement channel of a guild.
    GuildNews,
    /// A thread under an announcement channel.
    GuildNewsThread,
    /// A public thread under a text channel.
    GuildPublicThread,
    /// A private thread under a text channel.
    GuildPrivateThread,
    /// A stage voice channel of a guild.
    GuildStageVoice,
    /// A hub directory channel.
    GuildDirectory,
    /// A channel that can only contain threads.
    GuildForum,
    /// A channel type this crate does not know, carried by its wire tag.
    Unknown(u8),
}

/// A numeric bound of an integer- or number-kind field. A `Number` bound
/// carries the IEEE-754 bit pattern of the wire value; the crate never
/// interprets it numerically.
#[derive(Clone, Copy, Debug, PartialEq, Eq, Structural)]
pub enum CommandOptionValue {
    /// A signed integer bound.
    Integer(i64),
    /// A floating-point bound, carried as its bit pattern.
    Number(u64),
}

/// One predefined choice offered for a choice-bearing field. Choices are
/// threaded through schema building unmodified and never inspected.
#[derive(Debug, PartialEq, Eq)]
pub enum CommandOptionChoice {
    /// A choice whose value is text.
    Str {
        /// Display name of the choice.
        name: String,
        /// Localization dictionary for the choice name.
        name_localizations: Option<Localizations>,
        /// The text value the choice stands for.
        value: String,
    },
    /// A choice whose value is a signed integer.
    Integer {
        /// Display name of the choice.
        name: String,
        /// Localization dictionary for the choice name.
        name_localizations: Option<Localizations>,
        /// The integer value the choice stands for.
        value: i64,
    },
    /// A choice whose value is floating-point, carried as its bit pattern.
    Number {
        /// Display name of the choice.
        name: String,
        /// Localization dictionary for the choice name.
        name_localizations: Option<Localizations>,
        /// The bit pattern of the value the choice stands for.
        value: u64,
    },
}

/// Kind-specific constraints of a command option: a channel restriction
/// (meaningful only for channel-kind fields) and numeric bounds (meaningful
/// only for integer- and number-kind fields).
#[derive(Debug, PartialEq, Eq)]
pub struct CommandOptionData {
    /// Restricts a channel-kind field to specific channel types; empty
    /// means every channel type is accepted.
    pub channel_types: Vec<ChannelType>,
    /// Maximum value permitted for an integer- or number-kind field;
    /// absent means unbounded.
    pub max_value: Option<CommandOptionValue>,
    /// Minimum value permitted for an integer- or number-kind field;
    /// absent means unbounded.
    pub min_value: Option<CommandOptionValue>,
}

impl Default for CommandOptionData {
    /// No channel restriction and no numeric bounds.
    fn default() -> (r: Self)
        ensures
            r.channel_types@ == Seq::<ChannelType>::empty(),
            r.max_value is None,
            r.min_value is None,
    {
        CommandOptionData { channel_types: Vec::new(), max_value: None, min_value: None }
    }
}

/// The declared metadata of one field, normalized into the common
/// descriptor every wire-shape projection starts from.
///
/// The caller guarantees the protocol's length limits (name of at most 32
/// characters, description of at most 100) before building a descriptor;
/// the projections do not re-validate them.
#[derive(Debug, PartialEq, Eq)]
pub struct CreateOptionData {
    /// Name of the option.
    pub name: String,
    /// Localization dictionary for the option name.
    pub name_localizations: Option<Localizations>,
    /// Description of the option.
    pub description: String,
    /// Localization dictionary for the option description.
    pub description_localizations: Option<Localizations>,
    /// Whether the option is required to be completed by a user.
    pub required: bool,
    /// Whether the option supports autocomplete; meaningful only for
    /// choice-bearing and numeric kinds.
    pub autocomplete: bool,
    /// Kind-specific constraints of the option.
    pub data: CommandOptionData,
}

/// The wire shape of an option kind with no further constraints.
#[derive(Debug, PartialEq, Eq)]
pub struct BaseCommandOptionData {
    /// Description of the option.
    pub description: String,
    /// Localization dictionary for the option description.
    pub description_localizations: Option<Localizations>,
    /// Name of the option.
    pub name: String,
    /// Localization dictionary for the option name.
    pub name_localizations: Option<Localizations>,
    /// Whether the option is required to be completed by a user.
    pub required: bool,
}

/// The wire shape of a channel-kind option, restricted to channel types.
#[derive(Debug, PartialEq, Eq)]
pub struct ChannelCommandOptionData {
    /// The channel types accepted; empty accepts every channel type.
    pub channel_types: Vec<ChannelType>,
    /// Description of the option.
    pub description: String,
    /// Localization dictionary for the option description.
    pub description_localizations: Option<Localizations>,
    /// Name of the option.
    pub name: String,
    /// Localization dictionary for the option name.
    pub name_localizations: Option<Localizations>,
    /// Whether the option is required to be completed by a user.
    pub required: bool,
}

/// The wire shape of a choice-bearing option.
#[derive(Debug, PartialEq, Eq)]
pub struct ChoiceCommandOptionData {
    /// Whether the option supports autocomplete.
    pub autocomplete: bool,
    /// The predefined choices offered, in the order supplied.
    pub choices: Vec<CommandOptionChoice>,
    /// Description of the option.
    pub description: String,
    /// Localization dictionary for the option description.
    pub description_localizations: Option<Localizations>,
    /// Name of the option.
    pub name: String,
    /// Localization dictionary for the option name.
    pub name_localizations: Option<Localizations>,
    /// Whether the option is required to be completed by a user.
    pub required: bool,
}

/// The wire shape of a numeric option, with choices and numeric bounds.
#[derive(Debug, PartialEq, Eq)]
pub struct NumberCommandOptionData {
    /// Whether the option supports autocomplete.
    pub autocomplete: bool,
    /// The predefined choices offered, in the order supplied.
    pub choices: Vec<CommandOptionChoice>,
    /// Description of the option.
    pub description: String,
    /// Localization dictionary for the option description.
    pub description_localizations: Option<Localizations>,
    /// Maximum value permitted; absent means unbounded.
    pub max_value: Option<CommandOptionValue>,
    /// Minimum value permitted; absent means unbounded.
    pub min_value: Option<CommandOptionValue>,
    /// Name of the option.
    pub name: String,
    /// Localization dictionary for the option name.
    pub name_localizations: Option<Localizations>,
    /// Whether the option is required to be completed by a user.
    pub required: bool,
}

impl CreateOptionData {
    /// Project the descriptor into the base wire shape: every shared field
    /// is carried over unchanged and nothing else is added.
    pub fn into_data(self) -> (r: BaseCommandOptionData)
        ensures
            r.description == self.description,
            r.description_localizations == self.description_localizations,
            r.name == self.name,
            r.name_localizations == self.name_localizations,
            r.required == self.required,
    {
        BaseCommandOptionData {
            description: self.description,
            description_localizations: self.description_localizations,
            name: self.name,
            name_localizations: self.name_localizations,
            required: self.required,
        }
    }

    /// Project the descriptor into the channel wire shape: the shared
    /// fields and the declared channel-type restriction are carried over
    /// unchanged; an empty restriction stays empty, accepting every
    /// channel type.
    pub fn into_channel(self) -> (r: ChannelCommandOptionData)
        ensures
            r.channel_types == self.data.channel_types,
            r.description == self.description,
            r.description_localizations == self.description_localizations,
            r.name == self.name,
            r.name_localizations == self.name_localizations,
            r.required == self.required,
    {
        ChannelCommandOptionData {
            channel_types: self.data.channel_types,
            description: self.description,
            description_localizations: self.description_localizations,
            name: self.name,
            name_localizations: self.name_localizations,
            required: self.required,
        }
    }

    /// Project the descriptor into the choice-bearing wire shape: the
    /// shared fields and the autocomplete flag are carried over unchanged,
    /// and the supplied choices are threaded through unmodified, in order.
    pub fn into_choice(self, choices: Vec<CommandOptionChoice>) -> (r: ChoiceCommandOptionData)
        ensures
            r.autocomplete == self.autocomplete,
            r.choices == choices,
            r.description == self.description,
            r.description_localizations == self.description_localizations,
            r.name == self.name,
            r.name_localizations == self.name_localizations,
            r.required == self.required,
    {
        ChoiceCommandOptionData {
            autocomplete: self.autocomplete,
            choices,
            description: self.description,
            description_localizations: self.description_localizations,
            name: self.name,
            name_localizations: self.name_localizations,
            required: self.required,
        }
    }

    /// Project the descriptor into the numeric wire shape: everything the
    /// choice-bearing shape carries, plus the declared numeric bounds
    /// copied verbatim; an absent bound stays absent, meaning unbounded.
    pub fn into_number(self, choices: Vec<CommandOptionChoice>) -> (r: NumberCommandOptionData)
        ensures
            r.autocomplete == self.autocomplete,
            r.choices == choices,
            r.description == self.description,
            r.description_localizations == self.description_localizations,
            r.max_value == self.data.max_value,
            r.min_value == self.data.min_value,
            r.name == self.name,
            r.name_localizations == self.name_localizations,
            r.required == self.required,
    {
        NumberCommandOptionData {
            autocomplete: self.autocomplete,
            choices,
            description: self.description,
            description_localizations: self.description_localizations,
            max_value: self.data.max_value,
            min_value: self.data.min_value,
            name: self.name,
            name_localizations: self.name_localizations,
            required: self.required,
        }
    }
}

} // verus!
