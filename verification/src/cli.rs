//! The command line: generating a plugin template, the version line and
//! looking up a configuration value. Files and the environment are read and
//! written outside; this module decides the names, contents and messages.
use crate::text::{
    chars_of, contains, contains_spec, find_exec, find_from, occurs_at, owned, push_range, replace,
    replace_from,
};
use vstd::prelude::*;

verus! {

/// What the command line asks for.
pub struct Cli {
    pub command: Option<Commands>,
}

/// The subcommands of the command line.
pub enum Commands {
    /// Generate a new plugin (command) template in `src/plugins/<name>/`.
    GeneratePlugin { name: String },
    /// Show the bot's version.
    Version,
    /// Show a configuration value by key.
    Config { key: String },
}

// ---------------------------------------------------------------------------
// Character classes (std's Unicode tables)
// ---------------------------------------------------------------------------

/// Whether `char::is_alphanumeric` holds of `c` (Unicode Alphabetic or
/// Numeric).
pub uninterp spec fn alphanumeric(c: char) -> bool;

/// What `char::to_uppercase` gives for `c`, collected into text.
pub uninterp spec fn uppercase(c: char) -> Seq<char>;

/// Calls `char::is_alphanumeric`; the result is named `alphanumeric(c)`.
#[verifier::external_body]
fn is_alphanumeric(c: char) -> (r: bool)
    ensures
        r == alphanumeric(c),
{
    c.is_alphanumeric()
}

/// Calls `char::to_uppercase` and collects the characters; the result is
/// named `uppercase(c)`.
#[verifier::external_body]
fn to_uppercase(c: char) -> (r: String)
    ensures
        r@ == uppercase(c),
{
    c.to_uppercase().collect()
}

// ---------------------------------------------------------------------------
// Plugin names
// ---------------------------------------------------------------------------

/// Whether a plugin name holds only alphanumeric characters and underscores.
pub open spec fn valid_plugin_name(name: Seq<char>) -> bool {
    forall|i: int| 0 <= i < name.len() ==> alphanumeric(#[trigger] name[i]) || name[i] == '_'
}

/// `s` in PascalCase: the underscores dropped and the first character of
/// each part between them uppercased.
pub open spec fn pascal_case(s: Seq<char>) -> Seq<char>
    decreases s.len(),
{
    if s.len() == 0 {
        seq![]
    } else {
        let init = s.drop_last();
        let c = s.last();
        pascal_case(init) + if c == '_' {
            seq![]
        } else if init.len() == 0 || init.last() == '_' {
            uppercase(c)
        } else {
            seq![c]
        }
    }
}

/// The error for a name that is not a valid plugin name.
pub open spec fn invalid_name_text() -> Seq<char> {
    "Plugin name must contain only alphanumeric characters and underscores"@
}

/// Accepts a valid plugin name; refuses any other with its error.
pub fn check_plugin_name(name: &str) -> (r: Result<(), String>)
    ensures
        r is Ok <==> valid_plugin_name(name@),
        r matches Err(e) ==> e@ == invalid_name_text(),
{
    let cs = chars_of(name);
    let mut i: usize = 0;
    while i < cs.len()
        invariant
            i <= cs@.len(),
            cs@ == name@,
            forall|j: int| 0 <= j < i ==> alphanumeric(#[trigger] cs@[j]) || cs@[j] == '_',
        decreases cs@.len() - i,
    {
        if !(is_alphanumeric(cs[i]) || cs[i] == '_') {
            return Err(owned("Plugin name must contain only alphanumeric characters and underscores"));
        }
        i = i + 1;
    }
    Ok(())
}

/// `s` in PascalCase.
pub fn to_pascal_case(s: &str) -> (r: String)
    ensures
        r@ == pascal_case(s@),
{
    let cs = chars_of(s);
    let mut r = String::new();
    let mut i: usize = 0;
    while i < cs.len()
        invariant
            i <= cs@.len(),
            cs@ == s@,
            r@ == pascal_case(cs@.take(i as int)),
        decreases cs@.len() - i,
    {
        let ghost t = cs@.take(i + 1);
        assert(t.drop_last() =~= cs@.take(i as int));
        let c = cs[i];
        if c == '_' {
            assert(r@ + seq![] =~= r@);
        } else if i == 0 || cs[i - 1] == '_' {
            r.append(to_uppercase(c).as_str());
        } else {
            r.push(c);
        }
        i = i + 1;
    }
    assert(cs@.take(cs@.len() as int) =~= cs@);
    r
}

// ---------------------------------------------------------------------------
// The files of a new plugin
// ---------------------------------------------------------------------------

/// The `mod.rs` of a new plugin, with `{0}` standing for the command's type.
pub const MOD_TEMPLATE: &'static str = "mod command;\n\npub use command::{create, {0}};\n";

/// The `command.rs` of a new plugin, with `{0}` standing for the command's
/// type and `{1}` for the plugin's name.
pub const COMMAND_TEMPLATE: &'static str = r#"use crate::core::command::SubCommandInfo;
use crate::core::Command;
use async_trait::async_trait;
use serenity::builder::{
    CreateCommand,
    CreateInteractionResponse,
    CreateInteractionResponseMessage,
    CreateMessage,
};
use serenity::model::application::CommandInteraction;
use serenity::model::channel::Message;
use serenity::prelude::Context;
use std::sync::Arc;
use std::time::Duration;

pub struct {0};

#[async_trait]
impl Command for {0} {
    fn name(&self) -> &'static str {
        "{1}"
    }

    fn description(&self) -> &'static str {
        "Description of {1} command"
    }

    fn register_slash(&self, cmd: &mut CreateCommand) {
        *cmd = CreateCommand::new("{1}")
            .description("Description of {1} command");
    }

    async fn run_slash(
        &self,
        ctx: &Context,
        interaction: &CommandInteraction,
    ) -> anyhow::Result<()> {
        interaction
            .create_response(
                &ctx.http,
                CreateInteractionResponse::Message(
                    CreateInteractionResponseMessage::new()
                        .content("Response from {1} command"),
                ),
            )
            .await?;
        Ok(())
    }

    fn prefix(&self) -> Option<&'static str> {
        Some("{1}")
    }

    async fn run_prefix(
        &self,
        ctx: &Context,
        msg: &Message,
        _args: &[&str],
    ) -> anyhow::Result<()> {
        msg.channel_id
            .send_message(
                &ctx.http,
                CreateMessage::new().content("Response from {1} command"),
            )
            .await?;
        Ok(())
    }

    fn version(&self) -> &'static str {
        "1.0.0"
    }

    fn subcommands(&self) -> &'static [SubCommandInfo] {
        // SubCommandInfo { name: "sub", description: "...", aliases: &[] }
        &[]
    }
}

pub fn create() -> Arc<dyn Command> {
    Arc::new({0})
}
"#;

/// A template with `{0}` replaced by `first` and then `{1}` by `second`.
pub open spec fn fill(template: Seq<char>, first: Seq<char>, second: Seq<char>) -> Seq<char> {
    replace_from(replace_from(template, "{0}"@, first, 0), "{1}"@, second, 0)
}

fn fill_template(template: &str, first: &str, second: &str) -> (r: String)
    ensures
        r@ == fill(template@, first@, second@),
{
    proof {
        reveal_strlit("{0}");
        reveal_strlit("{1}");
    }
    let once = replace(template, "{0}", first);
    replace(once.as_str(), "{1}", second)
}

/// Where a new plugin's files go.
pub open spec fn plugin_dir_spec(name: Seq<char>) -> Seq<char> {
    "src/plugins/"@ + name
}

/// A new plugin: its directory, the contents of its two files, and the
/// messages that report them.
pub struct GeneratedPlugin {
    pub dir: String,
    pub mod_content: String,
    pub command_content: String,
    pub created_mod_message: String,
    pub created_command_message: String,
}

/// The files of the plugin `name`, or the error when the name is not
/// valid. The command's type is the name in PascalCase.
pub fn generate_plugin(name: &str) -> (r: Result<GeneratedPlugin, String>)
    ensures
        r is Ok <==> valid_plugin_name(name@),
        r matches Err(e) ==> e@ == invalid_name_text(),
        r matches Ok(p) ==> {
            &&& p.dir@ == plugin_dir_spec(name@)
            &&& p.mod_content@ == fill(MOD_TEMPLATE@, pascal_case(name@), name@)
            &&& p.command_content@ == fill(COMMAND_TEMPLATE@, pascal_case(name@), name@)
            &&& p.created_mod_message@ == "Created "@ + plugin_dir_spec(name@) + "/mod.rs"@
            &&& p.created_command_message@ == "Created "@ + plugin_dir_spec(name@) + "/command.rs"@
        },
{
    match check_plugin_name(name) {
        Err(e) => {
            return Err(e);
        },
        Ok(()) => {},
    }
    let struct_name = to_pascal_case(name);
    let mut dir = owned("src/plugins/");
    dir.append(name);
    let mut created_mod_message = owned("Created ");
    created_mod_message.append(dir.as_str());
    created_mod_message.append("/mod.rs");
    let mut created_command_message = owned("Created ");
    created_command_message.append(dir.as_str());
    created_command_message.append("/command.rs");
    Ok(
        GeneratedPlugin {
            dir,
            mod_content: fill_template(MOD_TEMPLATE, struct_name.as_str(), name),
            command_content: fill_template(COMMAND_TEMPLATE, struct_name.as_str(), name),
            created_mod_message,
            created_command_message,
        },
    )
}

/// The error when the plugin's directory is already there.
pub fn already_exists_message(dir: &str) -> (r: String)
    ensures
        r@ == "Plugin directory already exists: "@ + dir@,
{
    let mut r = owned("Plugin directory already exists: ");
    r.append(dir);
    r
}

// ---------------------------------------------------------------------------
// Registering a new plugin in `src/plugins/mod.rs`
// ---------------------------------------------------------------------------

/// `s` with `t` inserted before position `i`.
pub open spec fn insert_at(s: Seq<char>, i: int, t: Seq<char>) -> Seq<char> {
    s.take(i) + t + s.skip(i)
}

/// The line that declares the plugin's module.
pub open spec fn mod_line(name: Seq<char>) -> Seq<char> {
    "mod "@ + name + ";"@
}

/// The lines that create and register the plugin's command.
pub open spec fn registration_block(name: Seq<char>) -> Seq<char> {
    "    let "@ + name + "_cmd = "@ + name + "::create();\n    registry.register("@ + name
        + "_cmd.clone());\n    crate::done!(\"Loaded plugin {} v{}\", "@ + name
        + "_cmd.name(), "@ + name + "_cmd.version());\n\n    "@
}

/// The text of `mod.rs` with the plugin's module declared: after the
/// wallet's declaration if there is one, else after the first line, else as
/// a new first line; unchanged when it is declared already.
pub open spec fn with_mod_line(content: Seq<char>, name: Seq<char>) -> Seq<char> {
    if contains_spec(content, mod_line(name)) {
        content
    } else {
        match find_from(content, "mod wallet;"@, 0) {
            Some(p) => insert_at(content, p + "mod wallet;"@.len(), "\nmod "@ + name + ";"@),
            None => match find_from(content, seq!['\n'], 0) {
                Some(p) => insert_at(content, p + 1, "mod "@ + name + ";\n"@),
                None => mod_line(name) + "\n"@ + content,
            },
        }
    }
}

/// The text of `mod.rs` once the plugin is declared and, unless the text
/// already creates it, registered just before the help command.
pub open spec fn updated_plugins_mod(content: Seq<char>, name: Seq<char>) -> Seq<char> {
    let c1 = with_mod_line(content, name);
    if contains_spec(content, name + "::create()"@) {
        c1
    } else {
        match find_from(c1, "    let help_cmd = help::create(api)"@, 0) {
            Some(p) => insert_at(c1, p, registration_block(name)),
            None => c1,
        }
    }
}

fn insert_string(cs: &[char], i: usize, t: &str) -> (r: String)
    requires
        i <= cs@.len(),
    ensures
        r@ == insert_at(cs@, i as int, t@),
{
    let mut r = String::new();
    push_range(&mut r, cs, 0, i);
    r.append(t);
    push_range(&mut r, cs, i, cs.len());
    assert(cs@.subrange(0, i as int) =~= cs@.take(i as int));
    assert(cs@.subrange(i as int, cs@.len() as int) =~= cs@.skip(i as int));
    r
}

proof fn lemma_find_from_bounds(s: Seq<char>, pat: Seq<char>, i: int)
    requires
        0 <= i,
    ensures
        find_from(s, pat, i) matches Some(k) ==> i <= k && k + pat.len() <= s.len(),
    decreases s.len() + 1 - i,
{
    if i + pat.len() <= s.len() && !crate::text::occurs_at(s, pat, i) {
        lemma_find_from_bounds(s, pat, i + 1);
    }
}

fn with_mod_line_exec(content: &str, name: &str) -> (r: String)
    ensures
        r@ == with_mod_line(content@, name@),
{
    let mut line = owned("mod ");
    line.append(name);
    line.append(";");
    if contains(content, line.as_str()) {
        return owned(content);
    }
    let cs = chars_of(content);
    let n = cs.len();
    let wallet = chars_of("mod wallet;");
    match find_exec(cs.as_slice(), wallet.as_slice(), 0) {
        Some(p) => {
            proof {
                lemma_find_from_bounds(cs@, wallet@, 0);
            }
            let mut ins = owned("\nmod ");
            ins.append(name);
            ins.append(";");
            return insert_string(cs.as_slice(), p + wallet.len(), ins.as_str());
        },
        None => {},
    }
    let nl = ['\n'];
    assert(nl@ =~= seq!['\n']);
    match find_exec(cs.as_slice(), &nl, 0) {
        Some(p) => {
            proof {
                lemma_find_from_bounds(cs@, nl@, 0);
            }
            let mut ins = owned("mod ");
            ins.append(name);
            ins.append(";\n");
            insert_string(cs.as_slice(), p + 1, ins.as_str())
        },
        None => {
            let mut r = line;
            r.append("\n");
            r.append(content);
            r
        },
    }
}

/// `src/plugins/mod.rs` with the plugin `name` declared and registered.
pub fn update_plugins_mod(content: &str, name: &str) -> (r: String)
    ensures
        r@ == updated_plugins_mod(content@, name@),
{
    let c1 = with_mod_line_exec(content, name);
    let mut call = owned(name);
    call.append("::create()");
    if contains(content, call.as_str()) {
        return c1;
    }
    let cs = chars_of(c1.as_str());
    let needle = chars_of("    let help_cmd = help::create(api)");
    match find_exec(cs.as_slice(), needle.as_slice(), 0) {
        Some(p) => {
            proof {
                lemma_find_from_bounds(cs@, needle@, 0);
            }
            let mut block = owned("    let ");
            block.append(name);
            block.append("_cmd = ");
            block.append(name);
            block.append("::create();\n    registry.register(");
            block.append(name);
            block.append("_cmd.clone());\n    crate::done!(\"Loaded plugin {} v{}\", ");
            block.append(name);
            block.append("_cmd.name(), ");
            block.append(name);
            block.append("_cmd.version());\n\n    ");
            insert_string(cs.as_slice(), p, block.as_str())
        },
        None => c1,
    }
}

// ---------------------------------------------------------------------------
// Registering twice changes nothing
// ---------------------------------------------------------------------------

proof fn lemma_occurs_after_insert(s: Seq<char>, pat: Seq<char>, k: int, p: int, t: Seq<char>)
    requires
        occurs_at(s, pat, k),
        0 <= p <= s.len(),
    ensures
        p <= k ==> occurs_at(insert_at(s, p, t), pat, k + t.len()),
        k + pat.len() <= p ==> occurs_at(insert_at(s, p, t), pat, k),
{
    let u = insert_at(s, p, t);
    if p <= k {
        assert(u.subrange(k + t.len(), k + t.len() + pat.len()) =~= s.subrange(k, k + pat.len()));
    }
    if k + pat.len() <= p {
        assert(u.subrange(k, k + pat.len()) =~= s.subrange(k, k + pat.len()));
    }
}

proof fn lemma_occurs_in_inserted(s: Seq<char>, p: int, t: Seq<char>, pat: Seq<char>, j: int)
    requires
        occurs_at(t, pat, j),
        0 <= p <= s.len(),
    ensures
        occurs_at(insert_at(s, p, t), pat, p + j),
{
    let u = insert_at(s, p, t);
    assert(u.subrange(p + j, p + j + pat.len()) =~= t.subrange(j, j + pat.len()));
}

proof fn lemma_char_at_occurrence(s: Seq<char>, pat: Seq<char>, k: int, i: int)
    requires
        occurs_at(s, pat, k),
        k <= i < k + pat.len(),
    ensures
        s[i] == pat[i - k],
{
    assert(s.subrange(k, k + pat.len())[i - k] == s[i]);
}

/// An occurrence of `pat` survives an insertion at `p` that does not fall
/// strictly inside it.
proof fn lemma_contains_after_insert(s: Seq<char>, pat: Seq<char>, p: int, t: Seq<char>, k: int)
    requires
        occurs_at(s, pat, k),
        0 <= p <= s.len(),
        !(k < p < k + pat.len()),
    ensures
        contains_spec(insert_at(s, p, t), pat),
{
    lemma_occurs_after_insert(s, pat, k, p, t);
    if p <= k {
        assert(occurs_at(insert_at(s, p, t), pat, k + t.len()));
    } else {
        assert(occurs_at(insert_at(s, p, t), pat, k));
    }
}

/// A name for which registering is repeatable: no space, semicolon or line
/// break in it.
pub open spec fn plain_name(name: Seq<char>) -> bool {
    forall|i: int| 0 <= i < name.len() ==> name[i] != ' ' && name[i] != ';' && name[i] != '\n'
}

proof fn lemma_find_occurs(s: Seq<char>, pat: Seq<char>, i: int)
    requires
        0 <= i,
    ensures
        find_from(s, pat, i) matches Some(k) ==> occurs_at(s, pat, k),
        find_from(s, pat, i) is None ==> forall|j: int| i <= j ==> !occurs_at(s, pat, j),
    decreases s.len() + 1 - i,
{
    if i + pat.len() <= s.len() && !occurs_at(s, pat, i) {
        lemma_find_occurs(s, pat, i + 1);
    }
}

/// After `with_mod_line`, the plugin's module is declared; any occurrence
/// of `name::create()` in the text survives.
proof fn lemma_with_mod_line(content: Seq<char>, name: Seq<char>)
    requires
        plain_name(name),
    ensures
        contains_spec(with_mod_line(content, name), mod_line(name)),
        contains_spec(content, name + "::create()"@) ==> contains_spec(
            with_mod_line(content, name),
            name + "::create()"@,
        ),
{
    reveal_strlit("mod ");
    reveal_strlit(";");
    reveal_strlit("\nmod ");
    reveal_strlit(";\n");
    reveal_strlit("\n");
    reveal_strlit("mod wallet;");
    reveal_strlit("::create()");
    let ml = mod_line(name);
    let cp = name + "::create()"@;
    if contains_spec(content, ml) {
        return;
    }
    let k = if contains_spec(content, cp) {
        choose|k: int| occurs_at(content, cp, k)
    } else {
        0
    };
    lemma_find_occurs(content, "mod wallet;"@, 0);
    lemma_find_occurs(content, seq!['\n'], 0);
    lemma_find_from_bounds(content, "mod wallet;"@, 0);
    lemma_find_from_bounds(content, seq!['\n'], 0);
    match find_from(content, "mod wallet;"@, 0) {
        Some(p) => {
            let t = "\nmod "@ + name + ";"@;
            assert(t.subrange(1, 1 + ml.len() as int) =~= ml);
            lemma_occurs_in_inserted(content, p + 11, t, ml, 1);
            if contains_spec(content, cp) {
                if k < p + 11 < k + cp.len() {
                    lemma_char_at_occurrence(content, "mod wallet;"@, p, p + 10);
                    lemma_char_at_occurrence(content, cp, k, p + 10);
                    if p + 10 - k < name.len() {
                        assert(cp[p + 10 - k] == name[p + 10 - k]);
                    } else {
                        assert(cp[p + 10 - k] == "::create()"@[p + 10 - k - name.len()]);
                    }
                }
                lemma_contains_after_insert(content, cp, p + 11, t, k);
            }
        },
        None => match find_from(content, seq!['\n'], 0) {
            Some(p) => {
                let t = "mod "@ + name + ";\n"@;
                assert(t.subrange(0, ml.len() as int) =~= ml);
                lemma_occurs_in_inserted(content, p + 1, t, ml, 0);
                if contains_spec(content, cp) {
                    if k < p + 1 < k + cp.len() {
                        lemma_char_at_occurrence(content, seq!['\n'], p, p);
                        lemma_char_at_occurrence(content, cp, k, p);
                        if p - k < name.len() {
                            assert(cp[p - k] == name[p - k]);
                        } else {
                            assert(cp[p - k] == "::create()"@[p - k - name.len()]);
                        }
                    }
                    lemma_contains_after_insert(content, cp, p + 1, t, k);
                }
            },
            None => {
                let r = ml + "\n"@ + content;
                assert(r.subrange(0, ml.len() as int) =~= ml);
                assert(occurs_at(r, ml, 0));
                if contains_spec(content, cp) {
                    let off: int = (ml.len() + 1) as int;
                    assert(r.subrange(off + k, off + k + cp.len()) =~= content.subrange(k, k + cp.len()));
                    assert(occurs_at(r, cp, off + k));
                }
            },
        },
    }
}

/// Registering the same plugin a second time leaves `mod.rs` as the first
/// time left it, for a name without spaces, semicolons or line breaks.
pub proof fn law_plugin_registration_idempotent(content: Seq<char>, name: Seq<char>)
    requires
        plain_name(name),
    ensures
        updated_plugins_mod(updated_plugins_mod(content, name), name) == updated_plugins_mod(
            content,
            name,
        ),
{
    reveal_strlit("mod ");
    reveal_strlit(";");
    reveal_strlit("::create()");
    reveal_strlit("    let help_cmd = help::create(api)");
    reveal_strlit("    let ");
    reveal_strlit("_cmd = ");
    reveal_strlit("::create();\n    registry.register(");
    let ml = mod_line(name);
    let cp = name + "::create()"@;
    let needle = "    let help_cmd = help::create(api)"@;
    let c1 = with_mod_line(content, name);
    lemma_with_mod_line(content, name);
    let u = updated_plugins_mod(content, name);
    let km = choose|k: int| occurs_at(c1, ml, k);
    if !contains_spec(content, cp) {
        lemma_find_occurs(c1, needle, 0);
        lemma_find_from_bounds(c1, needle, 0);
        match find_from(c1, needle, 0) {
            Some(q) => {
                let b = registration_block(name);
                let off: int = ("    let "@.len() + name.len() + "_cmd = "@.len()) as int;
                assert(b.subrange(off, off + cp.len()) =~= cp);
                lemma_occurs_in_inserted(c1, q, b, cp, off);
                assert(occurs_at(u, cp, q + off));
                if km < q < km + ml.len() {
                    lemma_char_at_occurrence(c1, needle, q, q);
                    lemma_char_at_occurrence(c1, needle, q, q + 1);
                    lemma_char_at_occurrence(c1, ml, km, q);
                    lemma_char_at_occurrence(c1, ml, km, q + 1);
                    if q - km >= 4 && q - km < 4 + name.len() {
                        assert(ml[q - km] == name[q - km - 4]);
                    }
                    if q - km == 3 {
                        if name.len() > 0 {
                            assert(ml[q + 1 - km] == name[0]);
                        }
                    }
                }
                lemma_contains_after_insert(c1, ml, q, b, km);
            },
            None => {},
        }
    }
    assert(contains_spec(u, ml));
}

// ---------------------------------------------------------------------------
// Version and configuration lookups
// ---------------------------------------------------------------------------

/// The version line.
pub fn show_version(version: &str) -> (r: String)
    ensures
        r@ == "Mewbot v"@ + version@,
{
    let mut r = owned("Mewbot v");
    r.append(version);
    r
}

/// What reading an environment variable gave.
pub enum VarLookup {
    /// The variable's value.
    Found(String),
    /// The variable is not set.
    Missing,
    /// The variable is set but could not be read; why.
    Unreadable(String),
}

/// The line that shows configuration key `key`, or the error to report.
pub fn show_config(key: &str, lookup: VarLookup) -> (r: Result<String, String>)
    ensures
        match lookup {
            VarLookup::Found(v) => r matches Ok(line) && line@ == key@ + "="@ + v@,
            VarLookup::Missing => r matches Err(e) && e@ == "Config key '"@ + key@
                + "' not found in environment"@,
            VarLookup::Unreadable(why) => r matches Err(e) && e@ == "Error reading config key '"@
                + key@ + "': "@ + why@,
        },
{
    match lookup {
        VarLookup::Found(v) => {
            let mut line = owned(key);
            line.append("=");
            line.append(v.as_str());
            Ok(line)
        },
        VarLookup::Missing => {
            let mut e = owned("Config key '");
            e.append(key);
            e.append("' not found in environment");
            Err(e)
        },
        VarLookup::Unreadable(why) => {
            let mut e = owned("Error reading config key '");
            e.append(key);
            e.append("': ");
            e.append(why.as_str());
            Err(e)
        },
    }
}

} // verus!
