//! Serializing the command tree into the requests that register commands
//! with the platform.
//!
//! A command becomes a slash-command request when it has a slash action and
//! every parameter of every leaf below it can be represented; a subcommand
//! that cannot be represented silently drops out of its group, but an
//! unrepresentable parameter aborts its whole command. Context-menu entries
//! are collected from the whole tree, pre-order, regardless of nesting.

use vstd::prelude::*;

use crate::command::{
    Command, CommandOptionType, CommandParameter, ContextMenuCommandAction, InstallationContext,
    InteractionContext,
};
use crate::dispatch::CommandType;
use crate::permissions::{ChannelType, Permissions};

verus! {

broadcast use vstd::std_specs::vec::group_vec_axioms, vstd::seq::group_seq_axioms;

/// One fixed choice of a registered option, with its wire value.
#[derive(Clone, Debug)]
pub struct CommandOptionChoice {
    /// Label of the choice.
    pub name: String,
    /// The integer the platform reports back when this choice is picked:
    /// the choice's position in the parameter's list.
    pub value: u64,
    /// Localized labels, keyed by locale.
    pub localizations: Vec<(String, String)>,
}

/// A registered option: a parameter, a subcommand, or a subcommand group.
#[derive(Debug)]
pub struct CreateCommandOption {
    /// The option's platform-side type.
    pub kind: CommandOptionType,
    /// The option's name.
    pub name: String,
    /// The option's description.
    pub description: String,
    /// Localized names, keyed by locale.
    pub name_localizations: Vec<(String, String)>,
    /// Localized descriptions, keyed by locale.
    pub description_localizations: Vec<(String, String)>,
    /// Whether the option must be supplied.
    pub required: bool,
    /// Whether the option offers autocomplete suggestions.
    pub autocomplete: bool,
    /// For channel options, the channel kinds a user may pick.
    pub channel_types: Option<Vec<ChannelType>>,
    /// For choice options, the fixed choices.
    pub choices: Vec<CommandOptionChoice>,
    /// For subcommands and groups, the nested options.
    pub sub_options: Vec<CreateCommandOption>,
}

/// A registered command.
#[derive(Debug)]
pub struct CreateCommand {
    /// The command's name.
    pub name: String,
    /// The command's description.
    pub description: String,
    /// The platform-side command type; absent for a plain slash command.
    pub kind: Option<CommandType>,
    /// Localized names, keyed by locale.
    pub name_localizations: Vec<(String, String)>,
    /// Localized descriptions, keyed by locale.
    pub description_localizations: Vec<(String, String)>,
    /// Permissions members need before the platform shows the command; an
    /// empty set must stay unset, which the platform treats specially.
    pub default_member_permissions: Option<Permissions>,
    /// Installation contexts to register for.
    pub integration_types: Option<Vec<InstallationContext>>,
    /// Interaction contexts to register for.
    pub contexts: Option<Vec<InteractionContext>>,
    /// The command's options.
    pub options: Vec<CreateCommandOption>,
}

/// Copies a list of locale pairs.
fn duplicate_pairs(pairs: &Vec<(String, String)>) -> (r: Vec<(String, String)>)
    ensures
        r@ == pairs@,
{
    let mut out: Vec<(String, String)> = Vec::new();
    let mut i: usize = 0;
    let len: usize = pairs.len();
    while i < len
        invariant
            i <= len,
            len == pairs@.len(),
            out@ =~= pairs@.take(i as int),
        decreases len - i,
    {
        out.push((pairs[i].0.clone(), pairs[i].1.clone()));
        proof {
            assert(out@ =~= pairs@.take(i as int + 1));
        }
        i += 1;
    }
    proof {
        assert(pairs@.take(len as int) =~= pairs@);
    }
    out
}

/// Copies a channel-kind list.
fn duplicate_channel_types(kinds: &Vec<ChannelType>) -> (r: Vec<ChannelType>)
    ensures
        r@ == kinds@,
{
    let mut out: Vec<ChannelType> = Vec::new();
    let mut i: usize = 0;
    let len: usize = kinds.len();
    while i < len
        invariant
            i <= len,
            len == kinds@.len(),
            out@ =~= kinds@.take(i as int),
        decreases len - i,
    {
        out.push(kinds[i]);
        proof {
            assert(out@ =~= kinds@.take(i as int + 1));
        }
        i += 1;
    }
    proof {
        assert(kinds@.take(len as int) =~= kinds@);
    }
    out
}

/// How a registered option reflects the parameter it was built from.
pub open spec fn spec_param_option_built(p: CommandParameter, b: CreateCommandOption) -> bool {
    &&& p.type_setter == Some(b.kind)
    &&& b.name@ == p.name@
    &&& b.description@ == (match p.description {
        Some(d) => d@,
        None => "A slash command parameter"@,
    })
    &&& b.name_localizations@ == p.name_localizations@
    &&& b.description_localizations@ == p.description_localizations@
    &&& b.required == p.required
    &&& b.autocomplete == p.has_autocomplete
    &&& (match (p.channel_types, b.channel_types) {
        (Some(pk), Some(bk)) => pk@ == bk@,
        (None, None) => true,
        _ => false,
    })
    &&& b.choices@.len() == p.choices@.len()
    &&& (forall|i: int|
        0 <= i < p.choices@.len() ==> {
            &&& (#[trigger] b.choices@[i]).name@ == p.choices@[i].name@
            &&& b.choices@[i].value == i
            &&& b.choices@[i].localizations@ == p.choices@[i].localizations@
        })
    &&& b.sub_options@.len() == 0
}

/// Serializes a parameter into a registered option, when its platform type
/// is representable; choices are numbered by position.
pub fn create_as_slash_command_option(p: &CommandParameter) -> (r: Option<CreateCommandOption>)
    ensures
        (match r {
            Some(b) => spec_param_option_built(*p, b),
            None => p.type_setter is None,
        }),
{
    let kind: CommandOptionType = match p.type_setter {
        Some(k) => k,
        None => {
            return None;
        },
    };
    let description: String = match &p.description {
        Some(d) => d.clone(),
        None => String::from_str("A slash command parameter"),
    };
    let channel_types: Option<Vec<ChannelType>> = match &p.channel_types {
        Some(kinds) => Some(duplicate_channel_types(kinds)),
        None => None,
    };
    let mut choices: Vec<CommandOptionChoice> = Vec::new();
    let mut i: usize = 0;
    let clen: usize = p.choices.len();
    while i < clen
        invariant
            i <= clen,
            clen == p.choices@.len(),
            clen <= u64::MAX,
            choices@.len() == i,
            forall|j: int|
                0 <= j < i ==> {
                    &&& (#[trigger] choices@[j]).name@ == p.choices@[j].name@
                    &&& choices@[j].value == j
                    &&& choices@[j].localizations@ == p.choices@[j].localizations@
                },
        decreases clen - i,
    {
        choices.push(
            CommandOptionChoice {
                name: p.choices[i].name.clone(),
                value: i as u64,
                localizations: duplicate_pairs(&p.choices[i].localizations),
            },
        );
        i += 1;
    }
    Some(
        CreateCommandOption {
            kind,
            name: p.name.clone(),
            description,
            name_localizations: duplicate_pairs(&p.name_localizations),
            description_localizations: duplicate_pairs(&p.description_localizations),
            required: p.required,
            autocomplete: p.has_autocomplete,
            channel_types,
            choices,
            sub_options: Vec::new(),
        },
    )
}

/// Whether a command can register as a slash command or subcommand: it has
/// a slash action, and — when it is a leaf — every parameter is
/// representable. An unrepresentable subcommand of a group merely drops out
/// of the group, so groups only need the action.
pub open spec fn spec_can_build_slash(c: Command) -> bool {
    &&& c.has_slash_action
    &&& (c.subcommands@.len() == 0 ==> forall|i: int|
        0 <= i < c.parameters@.len() ==> (#[trigger] c.parameters@[i]).type_setter is Some)
}

/// How a registered subcommand option reflects the command it was built
/// from: a leaf carries its parameters, a group carries its representable
/// children.
pub open spec fn spec_subcommand_built(c: Command, b: CreateCommandOption) -> bool
    decreases c,
{
    &&& b.kind == (if c.subcommands@.len() == 0 {
        CommandOptionType::SubCommand
    } else {
        CommandOptionType::SubCommandGroup
    })
    &&& b.name@ == c.name@
    &&& b.description@ == (match c.description {
        Some(d) => d@,
        None => "A slash command"@,
    })
    &&& b.name_localizations@ == c.name_localizations@
    &&& b.description_localizations@ == c.description_localizations@
    &&& (if c.subcommands@.len() == 0 {
        &&& b.sub_options@.len() == c.parameters@.len()
        &&& (forall|i: int|
            0 <= i < c.parameters@.len() ==> spec_param_option_built(
                c.parameters@[i],
                #[trigger] b.sub_options@[i],
            ))
    } else {
        spec_children_built(c.subcommands@, b.sub_options@)
    })
}

/// How a group's option list reflects its children: representable children
/// appear in order, the rest drop out.
pub open spec fn spec_children_built(subs: Seq<Command>, out: Seq<CreateCommandOption>) -> bool
    decreases subs,
{
    if subs.len() == 0 {
        out.len() == 0
    } else if spec_can_build_slash(subs.last()) {
        &&& out.len() > 0
        &&& spec_subcommand_built(subs.last(), out.last())
        &&& spec_children_built(subs.drop_last(), out.drop_last())
    } else {
        spec_children_built(subs.drop_last(), out)
    }
}

/// Serializes a command into a subcommand or subcommand-group option of its
/// parent. Nothing is returned when the command cannot register.
#[verifier::loop_isolation(false)]
pub fn create_as_subcommand(c: &Command) -> (r: Option<CreateCommandOption>)
    ensures
        (match r {
            Some(b) => spec_can_build_slash(*c) && spec_subcommand_built(*c, b),
            None => !spec_can_build_slash(*c),
        }),
    decreases c,
{
    if !c.has_slash_action {
        return None;
    }
    let description: String = match &c.description {
        Some(d) => d.clone(),
        None => String::from_str("A slash command"),
    };
    let mut sub_options: Vec<CreateCommandOption> = Vec::new();
    if c.subcommands.len() == 0 {
        let mut i: usize = 0;
        let plen: usize = c.parameters.len();
        while i < plen
            invariant
                i <= plen,
                sub_options@.len() == i,
                forall|j: int|
                    0 <= j < i ==> (#[trigger] c.parameters@[j]).type_setter is Some
                        && spec_param_option_built(c.parameters@[j], sub_options@[j]),
            decreases plen - i,
        {
            match create_as_slash_command_option(&c.parameters[i]) {
                Some(b) => {
                    sub_options.push(b);
                },
                None => {
                    return None;
                },
            }
            i += 1;
        }
    } else {
        let mut i: usize = 0;
        let slen: usize = c.subcommands.len();
        while i < slen
            invariant
                i <= slen,
                spec_children_built(c.subcommands@.take(i as int), sub_options@),
            decreases slen - i,
        {
            proof {
                assert(decreases_to!(c => c.subcommands));
                assert(decreases_to!(c.subcommands => c.subcommands@));
                assert(decreases_to!(c.subcommands@ => c.subcommands@[i as int]));
            }
            let built: Option<CreateCommandOption> = create_as_subcommand(&c.subcommands[i]);
            proof {
                assert(c.subcommands@.take(i as int + 1).last() == c.subcommands@[i as int]);
                assert(c.subcommands@.take(i as int + 1).drop_last() =~= c.subcommands@.take(
                    i as int,
                ));
            }
            match built {
                Some(b) => {
                    let ghost before = sub_options@;
                    sub_options.push(b);
                    proof {
                        assert(sub_options@.drop_last() =~= before);
                        assert(sub_options@.last() == b);
                    }
                },
                None => {},
            }
            i += 1;
        }
        proof {
            assert(c.subcommands@.take(slen as int) =~= c.subcommands@);
        }
    }
    Some(
        CreateCommandOption {
            kind: if c.subcommands.len() == 0 {
                CommandOptionType::SubCommand
            } else {
                CommandOptionType::SubCommandGroup
            },
            name: c.name.clone(),
            description,
            name_localizations: duplicate_pairs(&c.name_localizations),
            description_localizations: duplicate_pairs(&c.description_localizations),
            required: false,
            autocomplete: false,
            channel_types: None,
            choices: Vec::new(),
            sub_options,
        },
    )
}

/// The interaction contexts a command registers for: an explicit selection
/// wins; otherwise a guild-only command registers for guilds, a DM-only one
/// for the bot's direct messages.
pub open spec fn spec_registered_contexts(c: Command) -> Option<Seq<InteractionContext>> {
    match c.interaction_context {
        Some(contexts) => Some(contexts@),
        None => {
            if c.guild_only {
                Some(seq![InteractionContext::Guild])
            } else if c.dm_only {
                Some(seq![InteractionContext::BotDm])
            } else {
                None
            }
        },
    }
}

/// Builds the contexts a command registers for.
fn registered_contexts(c: &Command) -> (r: Option<Vec<InteractionContext>>)
    ensures
        (match (r, spec_registered_contexts(*c)) {
            (Some(v), Some(s)) => v@ == s,
            (None, None) => true,
            _ => false,
        }),
{
    match &c.interaction_context {
        Some(contexts) => {
            let mut out: Vec<InteractionContext> = Vec::new();
            let mut i: usize = 0;
            let len: usize = contexts.len();
            while i < len
                invariant
                    i <= len,
                    len == contexts@.len(),
                    out@ =~= contexts@.take(i as int),
                decreases len - i,
            {
                out.push(contexts[i]);
                proof {
                    assert(out@ =~= contexts@.take(i as int + 1));
                }
                i += 1;
            }
            proof {
                assert(contexts@.take(len as int) =~= contexts@);
            }
            Some(out)
        },
        None => {
            if c.guild_only {
                let mut out: Vec<InteractionContext> = Vec::new();
                out.push(InteractionContext::Guild);
                proof {
                    assert(out@ =~= seq![InteractionContext::Guild]);
                }
                Some(out)
            } else if c.dm_only {
                let mut out: Vec<InteractionContext> = Vec::new();
                out.push(InteractionContext::BotDm);
                proof {
                    assert(out@ =~= seq![InteractionContext::BotDm]);
                }
                Some(out)
            } else {
                None
            }
        },
    }
}

/// Builds the installation contexts a command registers for.
fn registered_integration_types(c: &Command) -> (r: Option<Vec<InstallationContext>>)
    ensures
        (match (r, c.install_context) {
            (Some(v), Some(s)) => v@ == s@,
            (None, None) => true,
            _ => false,
        }),
{
    match &c.install_context {
        Some(kinds) => {
            let mut out: Vec<InstallationContext> = Vec::new();
            let mut i: usize = 0;
            let len: usize = kinds.len();
            while i < len
                invariant
                    i <= len,
                    len == kinds@.len(),
                    out@ =~= kinds@.take(i as int),
                decreases len - i,
            {
                out.push(kinds[i]);
                proof {
                    assert(out@ =~= kinds@.take(i as int + 1));
                }
                i += 1;
            }
            proof {
                assert(kinds@.take(len as int) =~= kinds@);
            }
            Some(out)
        },
        None => None,
    }
}

/// How a registered slash command reflects the command it was built from.
pub open spec fn spec_slash_command_built(c: Command, b: CreateCommand) -> bool {
    &&& b.name@ == c.name@
    &&& b.description@ == (match c.description {
        Some(d) => d@,
        None => "A slash command"@,
    })
    &&& b.kind is None
    &&& b.name_localizations@ == c.name_localizations@
    &&& b.description_localizations@ == c.description_localizations@
    &&& b.default_member_permissions == (if c.default_member_permissions.bits != 0 {
        Some(c.default_member_permissions)
    } else {
        None
    })
    &&& (match (b.integration_types, c.install_context) {
        (Some(v), Some(s)) => v@ == s@,
        (None, None) => true,
        _ => false,
    })
    &&& (match (b.contexts, spec_registered_contexts(c)) {
        (Some(v), Some(s)) => v@ == s,
        (None, None) => true,
        _ => false,
    })
    &&& (if c.subcommands@.len() == 0 {
        &&& b.options@.len() == c.parameters@.len()
        &&& (forall|i: int|
            0 <= i < c.parameters@.len() ==> spec_param_option_built(
                c.parameters@[i],
                #[trigger] b.options@[i],
            ))
    } else {
        spec_children_built(c.subcommands@, b.options@)
    })
}

/// Serializes a command into a slash-command registration request. Nothing
/// is returned when the command cannot register as a slash command.
#[verifier::loop_isolation(false)]
pub fn create_as_slash_command(c: &Command) -> (r: Option<CreateCommand>)
    ensures
        (match r {
            Some(b) => spec_can_build_slash(*c) && spec_slash_command_built(*c, b),
            None => !spec_can_build_slash(*c),
        }),
{
    if !c.has_slash_action {
        return None;
    }
    let description: String = match &c.description {
        Some(d) => d.clone(),
        None => String::from_str("A slash command"),
    };
    let default_member_permissions: Option<Permissions> =
        if !c.default_member_permissions.is_empty() {
        Some(c.default_member_permissions)
    } else {
        None
    };
    let mut options: Vec<CreateCommandOption> = Vec::new();
    if c.subcommands.len() == 0 {
        let mut i: usize = 0;
        let plen: usize = c.parameters.len();
        while i < plen
            invariant
                i <= plen,
                options@.len() == i,
                forall|j: int|
                    0 <= j < i ==> (#[trigger] c.parameters@[j]).type_setter is Some
                        && spec_param_option_built(c.parameters@[j], options@[j]),
            decreases plen - i,
        {
            match create_as_slash_command_option(&c.parameters[i]) {
                Some(b) => {
                    options.push(b);
                },
                None => {
                    return None;
                },
            }
            i += 1;
        }
    } else {
        let mut i: usize = 0;
        let slen: usize = c.subcommands.len();
        while i < slen
            invariant
                i <= slen,
                spec_children_built(c.subcommands@.take(i as int), options@),
            decreases slen - i,
        {
            let built: Option<CreateCommandOption> = create_as_subcommand(&c.subcommands[i]);
            proof {
                assert(c.subcommands@.take(i as int + 1).last() == c.subcommands@[i as int]);
                assert(c.subcommands@.take(i as int + 1).drop_last() =~= c.subcommands@.take(
                    i as int,
                ));
            }
            match built {
                Some(b) => {
                    let ghost before = options@;
                    options.push(b);
                    proof {
                        assert(options@.drop_last() =~= before);
                        assert(options@.last() == b);
                    }
                },
                None => {},
            }
            i += 1;
        }
        proof {
            assert(c.subcommands@.take(slen as int) =~= c.subcommands@);
        }
    }
    Some(
        CreateCommand {
            name: c.name.clone(),
            description,
            kind: None,
            name_localizations: duplicate_pairs(&c.name_localizations),
            description_localizations: duplicate_pairs(&c.description_localizations),
            default_member_permissions,
            integration_types: registered_integration_types(c),
            contexts: registered_contexts(c),
            options,
        },
    )
}

/// How a registered context-menu command reflects the command it was built
/// from.
pub open spec fn spec_context_menu_built(c: Command, b: CreateCommand) -> bool {
    &&& c.context_menu_action is Some
    &&& b.name@ == (match c.context_menu_name {
        Some(n) => n@,
        None => c.name@,
    })
    &&& b.kind == (match c.context_menu_action {
        Some(ContextMenuCommandAction::User) => Some(CommandType::User),
        Some(ContextMenuCommandAction::Message) => Some(CommandType::Message),
        None => None,
    })
    &&& b.description@.len() == 0
    &&& (match (b.integration_types, c.install_context) {
        (Some(v), Some(s)) => v@ == s@,
        (None, None) => true,
        _ => false,
    })
    &&& (match (b.contexts, spec_registered_contexts(c)) {
        (Some(v), Some(s)) => v@ == s,
        (None, None) => true,
        _ => false,
    })
    &&& b.options@.len() == 0
}

/// Serializes a command into a context-menu registration request. Nothing
/// is returned when the command provides no context-menu entry.
pub fn create_as_context_menu_command(c: &Command) -> (r: Option<CreateCommand>)
    ensures
        (match r {
            Some(b) => spec_context_menu_built(*c, b),
            None => c.context_menu_action is None,
        }),
{
    let kind: CommandType = match c.context_menu_action {
        Some(ContextMenuCommandAction::User) => CommandType::User,
        Some(ContextMenuCommandAction::Message) => CommandType::Message,
        None => {
            return None;
        },
    };
    let name: String = match &c.context_menu_name {
        Some(n) => n.clone(),
        None => c.name.clone(),
    };
    Some(
        CreateCommand {
            name,
            description: String::new(),
            kind: Some(kind),
            name_localizations: Vec::new(),
            description_localizations: Vec::new(),
            default_member_permissions: None,
            integration_types: registered_integration_types(c),
            contexts: registered_contexts(c),
            options: Vec::new(),
        },
    )
}

/// The nodes of one command's tree that provide a context-menu entry, in
/// pre-order: the node itself first, then its subcommands' trees in order.
pub open spec fn spec_context_menu_nodes(c: Command) -> Seq<Command>
    decreases c, 0nat,
{
    (if c.context_menu_action is Some {
        seq![c]
    } else {
        Seq::empty()
    }) + spec_context_menu_nodes_list(c.subcommands@, c.subcommands@.len() as int)
}

/// The context-menu nodes of the first `n` trees of a sibling list.
pub open spec fn spec_context_menu_nodes_list(subs: Seq<Command>, n: int) -> Seq<Command>
    decreases subs, n,
{
    if n <= 0 || n > subs.len() {
        Seq::empty()
    } else {
        spec_context_menu_nodes_list(subs, n - 1) + spec_context_menu_nodes(subs[n - 1])
    }
}

/// What one root contributes to the registration list: its slash command,
/// when it can register, then every context-menu entry of its whole tree.
pub open spec fn spec_root_plan(c: Command) -> Seq<(bool, Command)> {
    (if spec_can_build_slash(c) {
        seq![(false, c)]
    } else {
        Seq::empty()
    }) + spec_context_menu_nodes(c).map_values(|n: Command| (true, n))
}

/// The registration plan of the first `n` roots: which requests are built,
/// in order, each tagged with whether it is a context-menu request.
pub open spec fn spec_registration_plan(commands: Seq<Command>, n: int) -> Seq<(bool, Command)>
    decreases n,
{
    if n <= 0 || n > commands.len() {
        Seq::empty()
    } else {
        spec_registration_plan(commands, n - 1) + spec_root_plan(commands[n - 1])
    }
}

/// The output list matches the plan, request by request.
pub open spec fn spec_matches_plan(plan: Seq<(bool, Command)>, out: Seq<CreateCommand>) -> bool {
    &&& out.len() == plan.len()
    &&& (forall|i: int|
        0 <= i < plan.len() ==> (if (#[trigger] plan[i]).0 {
            spec_context_menu_built(plan[i].1, out[i])
        } else {
            spec_slash_command_built(plan[i].1, out[i])
        }))
}

/// Appends the context-menu requests of one command's whole tree, pre-order.
#[verifier::loop_isolation(false)]
fn add_context_menu_commands(builder: &mut Vec<CreateCommand>, c: &Command)
    ensures
        final(builder)@.len() == old(builder)@.len() + spec_context_menu_nodes(*c).len(),
        forall|i: int|
            0 <= i < old(builder)@.len() ==> final(builder)@[i] == old(builder)@[i],
        forall|j: int|
            0 <= j < spec_context_menu_nodes(*c).len() ==> spec_context_menu_built(
                spec_context_menu_nodes(*c)[j],
                #[trigger] final(builder)@[old(builder)@.len() + j],
            ),
    decreases c,
{
    let ghost nodes = spec_context_menu_nodes(*c);
    let ghost base = builder@.len() as int;
    match create_as_context_menu_command(c) {
        Some(b) => {
            builder.push(b);
        },
        None => {},
    }
    proof {
        if c.context_menu_action is Some {
            assert(nodes == seq![*c] + spec_context_menu_nodes_list(
                c.subcommands@,
                c.subcommands@.len() as int,
            ));
            assert(nodes[0] == *c);
        } else {
            assert(nodes =~= spec_context_menu_nodes_list(
                c.subcommands@,
                c.subcommands@.len() as int,
            ));
        }
    }
    let ghost off: int = if c.context_menu_action is Some {
        1int
    } else {
        0int
    };
    let mut i: usize = 0;
    let slen: usize = c.subcommands.len();
    while i < slen
        invariant
            i <= slen,
            builder@.len() == base + off + spec_context_menu_nodes_list(
                c.subcommands@,
                i as int,
            ).len(),
            forall|k: int| 0 <= k < base ==> builder@[k] == old(builder)@[k],
            c.context_menu_action is Some ==> spec_context_menu_built(*c, builder@[base]),
            forall|j: int|
                0 <= j < builder@.len() - base - off ==> spec_context_menu_built(
                    spec_context_menu_nodes_list(c.subcommands@, i as int)[j],
                    #[trigger] builder@[base + off + j],
                ),
        decreases slen - i,
    {
        proof {
            assert(decreases_to!(c => c.subcommands));
            assert(decreases_to!(c.subcommands => c.subcommands@));
            assert(decreases_to!(c.subcommands@ => c.subcommands@[i as int]));
        }
        let ghost builder_before = builder@;
        let ghost prev_nodes = spec_context_menu_nodes_list(c.subcommands@, i as int);
        add_context_menu_commands(builder, &c.subcommands[i]);
        proof {
            let sub_nodes = spec_context_menu_nodes(c.subcommands@[i as int]);
            let cur_nodes = spec_context_menu_nodes_list(c.subcommands@, i as int + 1);
            assert(cur_nodes == prev_nodes + sub_nodes);
            assert forall|j: int|
                0 <= j < builder@.len() - base - off implies spec_context_menu_built(
                cur_nodes[j],
                #[trigger] builder@[base + off + j],
            ) by {
                if j < prev_nodes.len() {
                    assert(cur_nodes[j] == prev_nodes[j]);
                    assert(builder@[base + off + j] == builder_before[base + off + j]);
                    assert(spec_context_menu_built(prev_nodes[j], builder_before[base + off + j]));
                } else {
                    assert(cur_nodes[j] == sub_nodes[j - prev_nodes.len()]);
                    assert(builder_before.len() == base + off + prev_nodes.len());
                    assert(spec_context_menu_built(
                        sub_nodes[j - prev_nodes.len()],
                        builder@[builder_before.len() + (j - prev_nodes.len())],
                    ));
                }
            }
        }
        i += 1;
    }
    proof {
        let list_full = spec_context_menu_nodes_list(c.subcommands@, c.subcommands@.len() as int);
        if c.context_menu_action is Some {
            assert forall|j: int| 0 <= j < nodes.len() implies spec_context_menu_built(
                nodes[j],
                #[trigger] builder@[base + j],
            ) by {
                if j > 0 {
                    assert(nodes[j] == list_full[j - 1]);
                    assert(spec_context_menu_built(list_full[j - 1], builder@[base + off + (j - 1)]));
                    assert(base + off + (j - 1) == base + j);
                } else {
                    assert(nodes[0] == *c);
                }
            }
        }
    }
}

/// Collects every registration request of a command list: per root, its
/// slash command when it can register, then the context-menu entries of its
/// whole tree — so a context-menu entry is found wherever it nests, rather
/// than silently dropped.
#[verifier::loop_isolation(false)]
pub fn create_application_commands(commands: &Vec<Command>) -> (r: Vec<CreateCommand>)
    ensures
        spec_matches_plan(
            spec_registration_plan(commands@, commands@.len() as int),
            r@,
        ),
{
    let mut out: Vec<CreateCommand> = Vec::new();
    let mut i: usize = 0;
    let len: usize = commands.len();
    while i < len
        invariant
            i <= len,
            spec_matches_plan(spec_registration_plan(commands@, i as int), out@),
        decreases len - i,
    {
        let ghost plan_before = spec_registration_plan(commands@, i as int);
        let ghost out_start = out@;
        let ghost base = out@.len() as int;
        let c: &Command = &commands[i];
        match create_as_slash_command(c) {
            Some(b) => {
                out.push(b);
            },
            None => {},
        }
        let ghost slash_len: int = if spec_can_build_slash(*c) {
            1int
        } else {
            0int
        };
        let ghost out_mid = out@;
        proof {
            assert(out_mid.len() == base + slash_len);
            assert(forall|k: int| 0 <= k < base ==> out_mid[k] == out_start[k]);
            if spec_can_build_slash(*c) {
                assert(spec_slash_command_built(*c, out_mid[base]));
            }
        }
        add_context_menu_commands(&mut out, c);
        proof {
            let root = spec_root_plan(*c);
            let nodes = spec_context_menu_nodes(*c);
            let plan_after = spec_registration_plan(commands@, i as int + 1);
            assert(plan_after == plan_before + root);
            assert(root.len() == slash_len + nodes.len());
            assert(out@.len() == out_mid.len() + nodes.len());
            assert forall|j: int|
                0 <= j < plan_after.len() implies (if (#[trigger] plan_after[j]).0 {
                spec_context_menu_built(plan_after[j].1, out@[j])
            } else {
                spec_slash_command_built(plan_after[j].1, out@[j])
            }) by {
                if j < base {
                    assert(plan_after[j] == plan_before[j]);
                    assert(out@[j] == out_mid[j]);
                    assert(out_mid[j] == out_start[j]);
                } else {
                    assert(plan_after[j] == root[j - base]);
                    if j - base < slash_len {
                        assert(root[j - base] == (false, *c));
                        assert(out@[j] == out_mid[j]);
                    } else {
                        assert(root[j - base] == ((true, nodes[j - base - slash_len])));
                        assert(spec_context_menu_built(
                            nodes[j - base - slash_len],
                            out@[out_mid.len() + (j - base - slash_len)],
                        ));
                        assert(out_mid.len() + (j - base - slash_len) == j);
                    }
                }
            }
        }
        i += 1;
    }
    proof {
        assert(spec_registration_plan(commands@, len as int) == spec_registration_plan(
            commands@,
            commands@.len() as int,
        ));
    }
    out
}

} // verus!
