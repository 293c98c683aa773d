//! The help command: the list of commands, the details of one command, or
//! the details of one subcommand, built from what the command list gives.
use crate::bot_core::command::{
    find_subcommand, first_match_from, CommandInfo, CommandLister, SubCommandInfo,
};
use crate::bot_core::permissions::{permission_name, required_permission_message};
use crate::bot_core::plugin_api::PluginApi;
use crate::bot_core::reply::RED;
use crate::events::Style;
use crate::text::{
    decimal, eq_ignore_ascii_case, eq_ignore_ascii_case_spec, join, join_spec, owned,
    push_decimal, split_whitespace, str_views, trim, trim_spec, views, words,
};
use std::sync::Arc;
use vstd::prelude::*;

verus! {

/// The color of help pages.
pub const BLUE: u32 = 0x0099ff;

/// A field of an embed.
pub struct EmbedField {
    pub name: String,
    pub value: String,
    pub inline: bool,
}

/// A field as plain values.
pub struct FieldView {
    pub name: Seq<char>,
    pub value: Seq<char>,
    pub inline: bool,
}

impl View for EmbedField {
    type V = FieldView;

    open spec fn view(&self) -> FieldView {
        FieldView { name: self.name@, value: self.value@, inline: self.inline }
    }
}

/// A help page: an embed with a title, a description, a color, fields and
/// an optional footer.
pub struct HelpEmbed {
    pub title: String,
    pub description: String,
    pub color: u32,
    pub fields: Vec<EmbedField>,
    pub footer: Option<String>,
}

/// A help page as plain values.
pub struct HelpEmbedView {
    pub title: Seq<char>,
    pub description: Seq<char>,
    pub color: u32,
    pub fields: Seq<FieldView>,
    pub footer: Option<Seq<char>>,
}

/// The plain values of a list of fields.
pub open spec fn field_views(fields: Seq<EmbedField>) -> Seq<FieldView> {
    fields.map_values(|f: EmbedField| f@)
}

impl View for HelpEmbed {
    type V = HelpEmbedView;

    open spec fn view(&self) -> HelpEmbedView {
        HelpEmbedView {
            title: self.title@,
            description: self.description@,
            color: self.color,
            fields: field_views(self.fields@),
            footer: match self.footer {
                Some(f) => Some(f@),
                None => None,
            },
        }
    }
}

// ---------------------------------------------------------------------------
// The pages
// ---------------------------------------------------------------------------

/// `text` between backticks.
pub open spec fn code(text: Seq<char>) -> Seq<char> {
    "`"@ + text + "`"@
}

/// The prefix forms of a command's aliases, or a dash when it has none.
pub open spec fn alias_list(prefix: Seq<char>, aliases: Seq<Seq<char>>) -> Seq<char> {
    if aliases.len() == 0 {
        "—"@
    } else {
        join_spec(aliases.map_values(|a: Seq<char>| code(prefix + a)), ", "@)
    }
}

/// How a command's required level is shown.
pub open spec fn permission_text(info: CommandInfo) -> Seq<char> {
    match info.required_permission {
        Some(level) => permission_name(level),
        None => "Any member"@,
    }
}

/// The fields of a command's page.
pub open spec fn command_fields(prefix: Seq<char>, info: CommandInfo) -> Seq<FieldView> {
    seq![
        FieldView { name: "Slash"@, value: code("/"@ + info.name@), inline: true },
        FieldView {
            name: "Prefix"@,
            value: match info.prefix {
                Some(p) => code(prefix + p@),
                None => "—"@,
            },
            inline: true,
        },
        FieldView { name: "Aliases"@, value: alias_list(prefix, views(info.aliases@)), inline: false },
        FieldView {
            name: "Cooldown"@,
            value: decimal(info.cooldown_secs as nat) + " seconds"@,
            inline: true,
        },
        FieldView { name: "Permission"@, value: permission_text(info), inline: true },
        FieldView { name: "Version"@, value: info.version@, inline: true },
    ]
}

/// The page of a command, without its subcommands.
pub open spec fn command_page(prefix: Seq<char>, info: CommandInfo) -> HelpEmbedView {
    HelpEmbedView {
        title: "Help: "@ + info.name@,
        description: info.description@,
        color: BLUE,
        fields: command_fields(prefix, info),
        footer: None,
    }
}

/// The line of a subcommand in a command's page.
pub open spec fn sub_line(s: SubCommandInfo) -> Seq<char> {
    "• **"@ + s.name@ + "**"@ + (if s.aliases@.len() == 0 {
        seq![]
    } else {
        " ("@ + join_spec(str_views(s.aliases@), ", "@) + ")"@
    }) + " — "@ + s.description@
}

/// The page of a command with the list of its subcommands, when it has any,
/// and a footer on how to ask for one.
pub open spec fn command_with_subcommands_page(prefix: Seq<char>, info: CommandInfo) -> HelpEmbedView {
    let base = command_page(prefix, info);
    if info.subcommands@.len() == 0 {
        base
    } else {
        HelpEmbedView {
            fields: base.fields.push(
                FieldView {
                    name: "Subcommands"@,
                    value: join_spec(info.subcommands@.map_values(|s: SubCommandInfo| sub_line(s)), "\n"@),
                    inline: false,
                },
            ),
            footer: Some(
                "Use /help "@ + info.name@ + " <subcommand> or "@ + prefix + "help"@ + " "@
                    + info.name@ + " <subcommand> for details"@,
            ),
            ..base
        }
    }
}

/// The page of one subcommand of command `cmd`.
pub open spec fn subcommand_page(prefix: Seq<char>, cmd: Seq<char>, sub: SubCommandInfo) -> HelpEmbedView {
    let fields = seq![
        FieldView { name: "Slash"@, value: code("/"@ + cmd + " "@ + sub.name@), inline: true },
        FieldView { name: "Prefix"@, value: code(prefix + cmd + " "@ + sub.name@), inline: true },
    ];
    HelpEmbedView {
        title: "Help: "@ + cmd + " "@ + sub.name@,
        description: sub.description@,
        color: BLUE,
        fields: if sub.aliases@.len() == 0 {
            fields
        } else {
            fields.push(
                FieldView {
                    name: "Aliases"@,
                    value: join_spec(
                        str_views(sub.aliases@).map_values(|a: Seq<char>| code(prefix + cmd + " "@ + a)),
                        ", "@,
                    ),
                    inline: false,
                },
            )
        },
        footer: None,
    }
}

/// The lines of the command list.
pub open spec fn command_list_text(cs: Seq<CommandInfo>) -> Seq<char>
    decreases cs.len(),
{
    if cs.len() == 0 {
        seq![]
    } else {
        command_list_text(cs.drop_last()) + "• **"@ + cs.last().name@ + "** - "@
            + cs.last().description@ + "\n"@
    }
}

/// The page that lists every command.
pub open spec fn overview_page(style: Style, prefix: Seq<char>, cs: Seq<CommandInfo>) -> HelpEmbedView {
    HelpEmbedView {
        title: "Available Commands"@,
        description: command_list_text(cs),
        color: BLUE,
        fields: seq![],
        footer: Some(
            match style {
                Style::Slash => "Use /help <command> or "@ + prefix + "help"@
                    + " <command> for detailed info"@,
                Style::Prefix => "Use "@ + prefix + "help"@ + " <command> for detailed info"@,
            },
        ),
    }
}

/// An error page.
pub open spec fn error_page(title: Seq<char>, text: Seq<char>) -> HelpEmbedView {
    HelpEmbedView { title, description: text, color: RED, fields: seq![], footer: None }
}

/// The position of the first command at or after `i` named `name`,
/// ignoring ASCII case.
pub open spec fn find_command_from(cs: Seq<CommandInfo>, name: Seq<char>, i: int) -> Option<int>
    decreases cs.len() - i,
{
    if i < 0 || i >= cs.len() {
        None
    } else if eq_ignore_ascii_case_spec(cs[i].name@, name) {
        Some(i)
    } else {
        find_command_from(cs, name, i + 1)
    }
}

/// The help page for a request, and whether it reports an error. Without a
/// command it lists all commands; an unknown command, or an unknown
/// subcommand of a known one, is reported.
pub open spec fn help_spec(
    style: Style,
    prefix: Seq<char>,
    cs: Seq<CommandInfo>,
    cmd: Option<Seq<char>>,
    sub: Option<Seq<char>>,
) -> (HelpEmbedView, bool) {
    match cmd {
        None => (overview_page(style, prefix, cs), false),
        Some(n) => match find_command_from(cs, n, 0) {
            None => (error_page("Command Not Found"@, "Command `"@ + n + "` not found."@), true),
            Some(i) => match sub {
                None => (command_with_subcommands_page(prefix, cs[i]), false),
                Some(s) => match first_match_from(cs[i].subcommands@, s, 0) {
                    Some(j) => (subcommand_page(prefix, cs[i].name@, cs[i].subcommands@[j]), false),
                    None => (
                        error_page(
                            "Subcommand Not Found"@,
                            "Subcommand `"@ + s + "` not found for command `"@ + cs[i].name@
                                + "`."@,
                        ),
                        true,
                    ),
                },
            },
        },
    }
}

/// The command and subcommand named by the text of a slash command's
/// option: its first two words once trimmed, if any.
pub open spec fn help_target_spec(arg: Option<Seq<char>>) -> (Option<Seq<char>>, Option<Seq<char>>) {
    match arg {
        None => (None, None),
        Some(x) => {
            let t = trim_spec(x);
            if t.len() == 0 {
                (None, None)
            } else {
                let ws = words(t);
                (
                    if ws.len() > 0 {
                        Some(ws[0])
                    } else {
                        None
                    },
                    if ws.len() > 1 {
                        Some(ws[1])
                    } else {
                        None
                    },
                )
            }
        },
    }
}

/// The plain value of an optional string slice.
pub open spec fn opt_str(o: Option<&str>) -> Option<Seq<char>> {
    match o {
        Some(s) => Some(s@),
        None => None,
    }
}

/// The plain value of an optional string.
pub open spec fn opt_string(o: Option<String>) -> Option<Seq<char>> {
    match o {
        Some(s) => Some(s@),
        None => None,
    }
}

// ---------------------------------------------------------------------------
// Building the pages
// ---------------------------------------------------------------------------


fn field(name: &str, value: String, inline: bool) -> (r: EmbedField)
    ensures
        r@ == (FieldView { name: name@, value: value@, inline }),
{
    EmbedField { name: owned(name), value, inline }
}

fn alias_list_string(prefix: &str, aliases: &[String]) -> (r: String)
    ensures
        r@ == alias_list(prefix@, views(aliases@)),
{
    if aliases.len() == 0 {
        return owned("—");
    }
    let mut parts: Vec<String> = Vec::new();
    let mut i: usize = 0;
    while i < aliases.len()
        invariant
            i <= aliases@.len(),
            views(parts@) == views(aliases@).take(i as int).map_values(
                |a: Seq<char>| code(prefix@ + a),
            ),
        decreases aliases@.len() - i,
    {
        let mut c = owned("`");
        c.append(prefix);
        c.append(aliases[i].as_str());
        c.append("`");
        assert(c@ =~= code(prefix@ + aliases@[i as int]@));
        let ghost before = parts@;
        let ghost cv = c@;
        parts.push(c);
        proof {
            assert(views(parts@) =~= views(before).push(cv));
            assert(views(aliases@).take(i + 1).map_values(|a: Seq<char>| code(prefix@ + a))
                =~= views(aliases@).take(i as int).map_values(|a: Seq<char>| code(prefix@ + a)).push(
                code(prefix@ + views(aliases@)[i as int]),
            ));
        }
        i = i + 1;
    }
    assert(views(aliases@).take(aliases@.len() as int) =~= views(aliases@));
    join(parts.as_slice(), ", ")
}

fn command_page_build(prefix: &str, info: &CommandInfo) -> (r: HelpEmbed)
    ensures
        r@ == command_page(prefix@, *info),
{
    let mut fields: Vec<EmbedField> = Vec::new();
    let mut slash = owned("`");
    slash.append("/");
    slash.append(info.name.as_str());
    slash.append("`");
    assert(slash@ =~= code("/"@ + info.name@));
    fields.push(field("Slash", slash, true));
    let pre = match &info.prefix {
        Some(p) => {
            let mut c = owned("`");
            c.append(prefix);
            c.append(p.as_str());
            c.append("`");
            assert(c@ =~= code(prefix@ + p@));
            c
        },
        None => owned("—"),
    };
    fields.push(field("Prefix", pre, true));
    fields.push(field("Aliases", alias_list_string(prefix, info.aliases.as_slice()), false));
    let mut cd = String::new();
    push_decimal(&mut cd, info.cooldown_secs);
    cd.append(" seconds");
    assert(cd@ =~= decimal(info.cooldown_secs as nat) + " seconds"@);
    fields.push(field("Cooldown", cd, true));
    let perm = match info.required_permission {
        Some(level) => owned(required_permission_message(level)),
        None => owned("Any member"),
    };
    fields.push(field("Permission", perm, true));
    fields.push(field("Version", owned(info.version.as_str()), true));
    assert(field_views(fields@) =~= command_fields(prefix@, *info));
    let mut title = owned("Help: ");
    title.append(info.name.as_str());
    HelpEmbed {
        title,
        description: owned(info.description.as_str()),
        color: BLUE,
        fields,
        footer: None,
    }
}

fn sub_line_string(s: &SubCommandInfo) -> (r: String)
    ensures
        r@ == sub_line(*s),
{
    let mut r = owned("• **");
    r.append(s.name);
    r.append("**");
    let ghost head = r@;
    if s.aliases.len() > 0 {
        r.append(" (");
        r.append(crate::text::str_join(s.aliases, ", ").as_str());
        r.append(")");
    } else {
        assert(head + seq![] =~= head);
    }
    r.append(" — ");
    r.append(s.description);
    assert(r@ =~= sub_line(*s));
    r
}

fn command_with_subcommands_build(prefix: &str, info: &CommandInfo) -> (r: HelpEmbed)
    ensures
        r@ == command_with_subcommands_page(prefix@, *info),
{
    let mut page = command_page_build(prefix, info);
    if info.subcommands.len() == 0 {
        return page;
    }
    let mut lines: Vec<String> = Vec::new();
    let mut i: usize = 0;
    while i < info.subcommands.len()
        invariant
            i <= info.subcommands@.len(),
            views(lines@) == info.subcommands@.take(i as int).map_values(
                |s: SubCommandInfo| sub_line(s),
            ),
        decreases info.subcommands@.len() - i,
    {
        let l = sub_line_string(&info.subcommands[i]);
        let ghost before = lines@;
        let ghost lv = l@;
        lines.push(l);
        proof {
            assert(views(lines@) =~= views(before).push(lv));
            assert(info.subcommands@.take(i + 1).map_values(|s: SubCommandInfo| sub_line(s))
                =~= info.subcommands@.take(i as int).map_values(|s: SubCommandInfo| sub_line(s)).push(
                sub_line(info.subcommands@[i as int]),
            ));
        }
        i = i + 1;
    }
    assert(info.subcommands@.take(info.subcommands@.len() as int) =~= info.subcommands@);
    let ghost before_fields = page.fields@;
    page.fields.push(field("Subcommands", join(lines.as_slice(), "\n"), false));
    assert(field_views(page.fields@) =~= field_views(before_fields).push(
        FieldView {
            name: "Subcommands"@,
            value: join_spec(info.subcommands@.map_values(|s: SubCommandInfo| sub_line(s)), "\n"@),
            inline: false,
        },
    ));
    let mut footer = owned("Use /help ");
    footer.append(info.name.as_str());
    footer.append(" <subcommand> or ");
    footer.append(prefix);
    footer.append("help");
    footer.append(" ");
    footer.append(info.name.as_str());
    footer.append(" <subcommand> for details");
    page.footer = Some(footer);
    page
}

fn subcommand_build(prefix: &str, cmd: &str, sub: &SubCommandInfo) -> (r: HelpEmbed)
    ensures
        r@ == subcommand_page(prefix@, cmd@, *sub),
{
    let mut fields: Vec<EmbedField> = Vec::new();
    let mut slash = owned("`");
    slash.append("/");
    slash.append(cmd);
    slash.append(" ");
    slash.append(sub.name);
    slash.append("`");
    assert(slash@ =~= code("/"@ + cmd@ + " "@ + sub.name@));
    fields.push(field("Slash", slash, true));
    let mut pre = owned("`");
    pre.append(prefix);
    pre.append(cmd);
    pre.append(" ");
    pre.append(sub.name);
    pre.append("`");
    assert(pre@ =~= code(prefix@ + cmd@ + " "@ + sub.name@));
    fields.push(field("Prefix", pre, true));
    let ghost two = field_views(fields@);
    if sub.aliases.len() > 0 {
        let mut parts: Vec<String> = Vec::new();
        let mut i: usize = 0;
        while i < sub.aliases.len()
            invariant
                i <= sub.aliases@.len(),
                views(parts@) == str_views(sub.aliases@).take(i as int).map_values(
                    |a: Seq<char>| code(prefix@ + cmd@ + " "@ + a),
                ),
            decreases sub.aliases@.len() - i,
        {
            let mut c = owned("`");
            c.append(prefix);
            c.append(cmd);
            c.append(" ");
            c.append(sub.aliases[i]);
            c.append("`");
            assert(c@ =~= code(prefix@ + cmd@ + " "@ + sub.aliases@[i as int]@));
            let ghost before = parts@;
            let ghost cv = c@;
            parts.push(c);
            proof {
                assert(views(parts@) =~= views(before).push(cv));
                assert(str_views(sub.aliases@).take(i + 1).map_values(
                    |a: Seq<char>| code(prefix@ + cmd@ + " "@ + a),
                ) =~= str_views(sub.aliases@).take(i as int).map_values(
                    |a: Seq<char>| code(prefix@ + cmd@ + " "@ + a),
                ).push(code(prefix@ + cmd@ + " "@ + str_views(sub.aliases@)[i as int])));
            }
            i = i + 1;
        }
        assert(str_views(sub.aliases@).take(sub.aliases@.len() as int) =~= str_views(sub.aliases@));
        fields.push(field("Aliases", join(parts.as_slice(), ", "), false));
    }
    assert(field_views(fields@) =~= subcommand_page(prefix@, cmd@, *sub).fields);
    let mut title = owned("Help: ");
    title.append(cmd);
    title.append(" ");
    title.append(sub.name);
    HelpEmbed { title, description: owned(sub.description), color: BLUE, fields, footer: None }
}

fn command_list_string(cs: &[CommandInfo]) -> (r: String)
    ensures
        r@ == command_list_text(cs@),
{
    let mut r = String::new();
    let mut i: usize = 0;
    while i < cs.len()
        invariant
            i <= cs@.len(),
            r@ == command_list_text(cs@.take(i as int)),
        decreases cs@.len() - i,
    {
        assert(cs@.take(i + 1).drop_last() =~= cs@.take(i as int));
        r.append("• **");
        r.append(cs[i].name.as_str());
        r.append("** - ");
        r.append(cs[i].description.as_str());
        r.append("\n");
        i = i + 1;
    }
    assert(cs@.take(cs@.len() as int) =~= cs@);
    r
}

fn overview_build(style: Style, prefix: &str, cs: &[CommandInfo]) -> (r: HelpEmbed)
    ensures
        r@ == overview_page(style, prefix@, cs@),
{
    let footer = match style {
        Style::Slash => {
            let mut f = owned("Use /help <command> or ");
            f.append(prefix);
            f.append("help");
            f.append(" <command> for detailed info");
            f
        },
        Style::Prefix => {
            let mut f = owned("Use ");
            f.append(prefix);
            f.append("help");
            f.append(" <command> for detailed info");
            f
        },
    };
    let r = HelpEmbed {
        title: owned("Available Commands"),
        description: command_list_string(cs),
        color: BLUE,
        fields: Vec::new(),
        footer: Some(footer),
    };
    assert(field_views(r.fields@) =~= Seq::<FieldView>::empty());
    r
}

fn error_build(title: &str, text: String) -> (r: HelpEmbed)
    ensures
        r@ == error_page(title@, text@),
{
    let r = HelpEmbed { title: owned(title), description: text, color: RED, fields: Vec::new(), footer: None };
    assert(field_views(r.fields@) =~= Seq::<FieldView>::empty());
    r
}

/// The first command named `name`, ignoring ASCII case.
pub fn find_command(cs: &[CommandInfo], name: &str) -> (r: Option<usize>)
    ensures
        match r {
            Some(i) => find_command_from(cs@, name@, 0) == Some(i as int) && i < cs@.len(),
            None => find_command_from(cs@, name@, 0) is None,
        },
{
    let mut i: usize = 0;
    while i < cs.len()
        invariant
            i <= cs@.len(),
            find_command_from(cs@, name@, i as int) == find_command_from(cs@, name@, 0),
        decreases cs@.len() - i,
    {
        if eq_ignore_ascii_case(cs[i].name.as_str(), name) {
            return Some(i);
        }
        i = i + 1;
    }
    None
}

/// The help page for command `cmd` and subcommand `sub` (both optional),
/// given the registered commands and the prefix, and whether it reports an
/// error; see [`help_spec`].
pub fn help_page(style: Style, prefix: &str, cs: &[CommandInfo], cmd: Option<&str>, sub: Option<&str>) -> (r: (
    HelpEmbed,
    bool,
))
    ensures
        (r.0@, r.1) == help_spec(style, prefix@, cs@, opt_str(cmd), opt_str(sub)),
{
    let n = match cmd {
        None => {
            return (overview_build(style, prefix, cs), false);
        },
        Some(n) => n,
    };
    let i = match find_command(cs, n) {
        None => {
            let mut t = owned("Command `");
            t.append(n);
            t.append("` not found.");
            return (error_build("Command Not Found", t), true);
        },
        Some(i) => i,
    };
    let info = &cs[i];
    match sub {
        None => (command_with_subcommands_build(prefix, info), false),
        Some(s) => match find_subcommand(info.subcommands.as_slice(), s) {
            Some(j) => (subcommand_build(prefix, info.name.as_str(), &info.subcommands[j]), false),
            None => {
                let mut t = owned("Subcommand `");
                t.append(s);
                t.append("` not found for command `");
                t.append(info.name.as_str());
                t.append("`.");
                (error_build("Subcommand Not Found", t), true)
            },
        },
    }
}

/// The command and subcommand that the text of a slash command's option
/// names: its first two words, once trimmed.
pub fn parse_help_target(arg: Option<&str>) -> (r: (Option<String>, Option<String>))
    ensures
        (opt_string(r.0), opt_string(r.1)) == help_target_spec(opt_str(arg)),
{
    let x = match arg {
        None => {
            return (None, None);
        },
        Some(x) => x,
    };
    let t = trim(x);
    if t.as_str().is_empty() {
        return (None, None);
    }
    let ws = split_whitespace(t.as_str());
    let first = if ws.len() > 0 {
        Some(owned(ws[0].as_str()))
    } else {
        None
    };
    let second = if ws.len() > 1 {
        Some(owned(ws[1].as_str()))
    } else {
        None
    };
    (first, second)
}

/// The word at position `i`, if there is one.
pub open spec fn arg_at(args: Seq<&str>, i: int) -> Option<Seq<char>> {
    if 0 <= i < args.len() {
        Some(args[i]@)
    } else {
        None
    }
}

/// The help command, reading the command list through the plugin API.
pub struct Help<L: CommandLister> {
    pub api: PluginApi<L>,
}

impl<L: CommandLister> Help<L> {
    /// The help command over `api`.
    pub fn new(api: PluginApi<L>) -> (r: Self)
        ensures
            r.api == api,
    {
        Help { api }
    }

    /// The command's name.
    pub fn name(&self) -> (r: &'static str)
        ensures
            r@ == "help"@,
    {
        "help"
    }

    /// What the command does.
    pub fn description(&self) -> (r: &'static str)
        ensures
            r@ == "Show help information about commands"@,
    {
        "Show help information about commands"
    }

    /// The word that starts the prefix form.
    pub fn prefix(&self) -> (r: Option<&'static str>)
        ensures
            r matches Some(p) && p@ == "help"@,
    {
        Some("help")
    }

    /// Other words that start the prefix form.
    pub fn aliases(&self) -> (r: Vec<&'static str>)
        ensures
            r@.len() == 2,
            r@[0]@ == "h"@,
            r@[1]@ == "commands"@,
    {
        vec!["h", "commands"]
    }

    /// The time a user waits between two uses, in seconds.
    pub fn cooldown_secs(&self) -> (r: u64)
        ensures
            r == 2,
    {
        2
    }

    /// The command's version.
    pub fn version(&self) -> (r: &'static str)
        ensures
            r@ == "1.0.0"@,
    {
        "1.0.0"
    }

    /// The answer to `/help`, given the registered commands (as the plugin
    /// API's lister gives them) and the text of its `command` option.
    pub fn answer_slash(&self, commands: &[CommandInfo], command_arg: Option<&str>) -> (r: (
        HelpEmbed,
        bool,
    ))
        ensures
            (r.0@, r.1) == help_spec(
                Style::Slash,
                self.api.config.command_prefix@,
                commands@,
                help_target_spec(opt_str(command_arg)).0,
                help_target_spec(opt_str(command_arg)).1,
            ),
    {
        let (cmd, sub) = parse_help_target(command_arg);
        let cmd_ref: Option<&str> = match &cmd {
            Some(c) => Some(c.as_str()),
            None => None,
        };
        let sub_ref: Option<&str> = match &sub {
            Some(s) => Some(s.as_str()),
            None => None,
        };
        help_page(Style::Slash, self.api.config.command_prefix.as_str(), commands, cmd_ref, sub_ref)
    }

    /// The answer to the prefix form, given the registered commands and the
    /// words after the command: the first names the command, the second the
    /// subcommand.
    pub fn answer_prefix(&self, commands: &[CommandInfo], args: &[&str]) -> (r: (HelpEmbed, bool))
        ensures
            (r.0@, r.1) == help_spec(
                Style::Prefix,
                self.api.config.command_prefix@,
                commands@,
                arg_at(args@, 0),
                arg_at(args@, 1),
            ),
    {
        let cmd: Option<&str> = if args.len() > 0 {
            Some(args[0])
        } else {
            None
        };
        let sub: Option<&str> = if args.len() > 1 {
            Some(args[1])
        } else {
            None
        };
        help_page(Style::Prefix, self.api.config.command_prefix.as_str(), commands, cmd, sub)
    }
}

/// The help command, shared.
pub fn create<L: CommandLister>(api: PluginApi<L>) -> (r: Arc<Help<L>>)
    ensures
        r.api == api,
{
    Arc::new(Help::new(api))
}

// ---------------------------------------------------------------------------
// Laws
// ---------------------------------------------------------------------------

proof fn lemma_eq_ignore_case_refl(a: Seq<char>)
    ensures
        eq_ignore_ascii_case_spec(a, a),
{
}

proof fn lemma_find_command_reaches(cs: Seq<CommandInfo>, name: Seq<char>, j: int, i: int)
    requires
        0 <= j <= i < cs.len(),
        eq_ignore_ascii_case_spec(cs[i].name@, name),
    ensures
        find_command_from(cs, name, j) is Some,
    decreases i - j,
{
    if !eq_ignore_ascii_case_spec(cs[j].name@, name) {
        lemma_find_command_reaches(cs, name, j + 1, i);
    }
}

proof fn lemma_first_match_reaches(subs: Seq<SubCommandInfo>, name: Seq<char>, j: int, i: int)
    requires
        0 <= j <= i < subs.len(),
        crate::bot_core::command::sub_matches(subs[i], name),
    ensures
        first_match_from(subs, name, j) is Some,
    decreases i - j,
{
    if !crate::bot_core::command::sub_matches(subs[j], name) {
        lemma_first_match_reaches(subs, name, j + 1, i);
    }
}

/// Asking for help on any listed command, by its name, gives its page and
/// no error.
pub proof fn law_help_finds_every_command(style: Style, prefix: Seq<char>, cs: Seq<CommandInfo>, i: int)
    requires
        0 <= i < cs.len(),
    ensures
        !help_spec(style, prefix, cs, Some(cs[i].name@), None).1,
{
    lemma_eq_ignore_case_refl(cs[i].name@);
    lemma_find_command_reaches(cs, cs[i].name@, 0, i);
}

/// Asking for help on any subcommand of the command a name finds, by the
/// subcommand's name, gives a page and no error.
pub proof fn law_help_finds_every_subcommand(
    style: Style,
    prefix: Seq<char>,
    cs: Seq<CommandInfo>,
    name: Seq<char>,
    k: int,
    j: int,
)
    requires
        find_command_from(cs, name, 0) == Some(k),
        0 <= j < cs[k].subcommands@.len(),
    ensures
        !help_spec(style, prefix, cs, Some(name), Some(cs[k].subcommands@[j].name@)).1,
{
    let subs = cs[k].subcommands@;
    lemma_eq_ignore_case_refl(subs[j].name@);
    lemma_first_match_reaches(subs, subs[j].name@, 0, j);
}

} // verus!
