//! The flashback command: looks a Valorant player up by id and shows the
//! season's highlights. The service is asked and answered outside; this
//! module holds what the answer means and the text that shows it.
use crate::plugins::wallet::store::opt_view;
use crate::text::{join_spec, owned, push_signed_decimal, signed_decimal, str_join, str_views};
use vstd::prelude::*;

verus! {

/// The service's answer.
pub struct FlashbackResponse {
    pub is_qualified: Option<i32>,
    pub user: Option<UserData>,
}

/// A player's season, as far as the service knows it.
pub struct UserData {
    pub riot_id_name: Option<String>,
    pub riot_id_tag: Option<String>,
    pub riot_id_combined: Option<String>,
    pub riot_id_combined_lower: Option<String>,
    pub qualified: Option<i32>,
    pub personal: Option<PersonalData>,
    pub stack: Option<StackData>,
    pub recommendations: Option<RecommendationsData>,
}

/// The player's own highlights.
pub struct PersonalData {
    pub most_played_agent: Option<String>,
    pub best_agent: Option<String>,
    pub worst_agent: Option<String>,
    pub agent_killed_most: Option<String>,
    pub agent_most_killed_by: Option<String>,
    pub clutch_boast: Option<i32>,
    pub clutch_roast: Option<i32>,
    pub weapon_boast: Option<String>,
    pub weapon_roast: Option<String>,
    pub first_blood_kill: Option<i32>,
    pub first_blood_victim: Option<i32>,
}

/// How the player did with teammates.
pub struct StackData {
    pub qualified: Option<i32>,
    pub win_partner: Option<String>,
    pub win_partner_agent: Option<String>,
    pub loss_partner: Option<String>,
    pub loss_partner_agent: Option<String>,
    pub most_assisted: Option<String>,
    pub most_assisted_agent: Option<String>,
    pub most_assisted_by: Option<String>,
    pub most_assisted_by_agent: Option<String>,
    pub headshot_highest: Option<String>,
    pub headshot_lowest: Option<String>,
    pub last_man_standing_most: Option<String>,
    pub last_man_standing_least: Option<String>,
}

/// Players the community picked for this one.
pub struct RecommendationsData {
    pub pro: Option<String>,
    pub influencer: Option<String>,
}

// ---------------------------------------------------------------------------
// The description of a player
// ---------------------------------------------------------------------------

/// A list item `- label: value`, or nothing when there is no value.
pub open spec fn item(label: Seq<char>, v: Option<Seq<char>>) -> Seq<char> {
    match v {
        Some(x) => "- "@ + label + ": "@ + x + "\n"@,
        None => seq![],
    }
}

/// A list item with a number, or nothing when there is no number.
pub open spec fn num_item(label: Seq<char>, v: Option<i32>) -> Seq<char> {
    match v {
        Some(n) => "- "@ + label + ": "@ + signed_decimal(n as int) + "\n"@,
        None => seq![],
    }
}

/// A list item naming a player, with the agent in brackets when known.
pub open spec fn pair_item(label: Seq<char>, v: Option<Seq<char>>, agent: Option<Seq<char>>) -> Seq<char> {
    match v {
        Some(x) => match agent {
            Some(a) => "- "@ + label + ": "@ + x + " ("@ + a + ")\n"@,
            None => "- "@ + label + ": "@ + x + "\n"@,
        },
        None => seq![],
    }
}

/// The personal part of the description.
pub open spec fn personal_text(p: PersonalData) -> Seq<char> {
    "**Personal Highlights**\n"@ + item("Most Played"@, opt_view(p.most_played_agent)) + item(
        "Best Agent"@,
        opt_view(p.best_agent),
    ) + item("Worst Agent"@, opt_view(p.worst_agent)) + item(
        "Kills Most"@,
        opt_view(p.agent_killed_most),
    ) + item("Killed By"@, opt_view(p.agent_most_killed_by)) + "\n"@ + "**Combat Performance**\n"@
        + num_item("Clutch Boast"@, p.clutch_boast) + num_item("Clutch Roast"@, p.clutch_roast)
        + item("Best Weapon"@, opt_view(p.weapon_boast)) + item(
        "Worst Weapon"@,
        opt_view(p.weapon_roast),
    ) + num_item("First Bloods"@, p.first_blood_kill) + num_item(
        "First Deaths"@,
        p.first_blood_victim,
    ) + "\n"@
}

/// The team part of the description.
pub open spec fn stack_text(s: StackData) -> Seq<char> {
    "**Team Synergy**\n"@ + pair_item(
        "Win Partner"@,
        opt_view(s.win_partner),
        opt_view(s.win_partner_agent),
    ) + pair_item("Loss Partner"@, opt_view(s.loss_partner), opt_view(s.loss_partner_agent))
        + pair_item("Most Assisted"@, opt_view(s.most_assisted), opt_view(s.most_assisted_agent))
        + pair_item(
        "Assisted By"@,
        opt_view(s.most_assisted_by),
        opt_view(s.most_assisted_by_agent),
    ) + "\n"@ + "**Headshot Insights**\n"@ + item("Highest HS%"@, opt_view(s.headshot_highest))
        + item("Lowest HS%"@, opt_view(s.headshot_lowest)) + item(
        "Last Man Standing (Most)"@,
        opt_view(s.last_man_standing_most),
    ) + item("Last Man Standing (Least)"@, opt_view(s.last_man_standing_least)) + "\n"@
}

/// The recommendations part of the description.
pub open spec fn recommendations_text(r: RecommendationsData) -> Seq<char> {
    "**Community Picks**\n"@ + item("Pro"@, opt_view(r.pro)) + item(
        "Influencer"@,
        opt_view(r.influencer),
    ) + "\n"@
}

/// The whole description of a player: the Riot id, then each part that the
/// service sent, in a fixed order.
pub open spec fn player_text(u: UserData) -> Seq<char> {
    (match u.riot_id_combined {
        Some(id) => "**Player:** "@ + id@ + "\n\n"@,
        None => seq![],
    }) + (match u.personal {
        Some(p) => personal_text(p),
        None => seq![],
    }) + (match u.stack {
        Some(s) => stack_text(s),
        None => seq![],
    }) + (match u.recommendations {
        Some(r) => recommendations_text(r),
        None => seq![],
    })
}

fn push_item(out: &mut String, label: &str, v: &Option<String>)
    ensures
        final(out)@ == old(out)@ + item(label@, opt_view(*v)),
{
    match v {
        Some(x) => {
            out.append("- ");
            out.append(label);
            out.append(": ");
            out.append(x.as_str());
            out.append("\n");
        },
        None => {
            assert(old(out)@ + item(label@, opt_view(*v)) =~= old(out)@);
        },
    }
}

fn push_num_item(out: &mut String, label: &str, v: Option<i32>)
    ensures
        final(out)@ == old(out)@ + num_item(label@, v),
{
    match v {
        Some(n) => {
            out.append("- ");
            out.append(label);
            out.append(": ");
            push_signed_decimal(out, n as i64);
            out.append("\n");
        },
        None => {
            assert(old(out)@ + num_item(label@, v) =~= old(out)@);
        },
    }
}

fn push_pair_item(out: &mut String, label: &str, v: &Option<String>, agent: &Option<String>)
    ensures
        final(out)@ == old(out)@ + pair_item(label@, opt_view(*v), opt_view(*agent)),
{
    match v {
        Some(x) => {
            out.append("- ");
            out.append(label);
            out.append(": ");
            out.append(x.as_str());
            match agent {
                Some(a) => {
                    out.append(" (");
                    out.append(a.as_str());
                    out.append(")\n");
                },
                None => {
                    out.append("\n");
                },
            }
        },
        None => {
            assert(old(out)@ + pair_item(label@, opt_view(*v), opt_view(*agent)) =~= old(out)@);
        },
    }
}

fn push_personal(out: &mut String, p: &PersonalData)
    ensures
        final(out)@ =~= old(out)@ + personal_text(*p),
{
    out.append("**Personal Highlights**\n");
    push_item(out, "Most Played", &p.most_played_agent);
    push_item(out, "Best Agent", &p.best_agent);
    push_item(out, "Worst Agent", &p.worst_agent);
    push_item(out, "Kills Most", &p.agent_killed_most);
    push_item(out, "Killed By", &p.agent_most_killed_by);
    out.append("\n");
    out.append("**Combat Performance**\n");
    push_num_item(out, "Clutch Boast", p.clutch_boast);
    push_num_item(out, "Clutch Roast", p.clutch_roast);
    push_item(out, "Best Weapon", &p.weapon_boast);
    push_item(out, "Worst Weapon", &p.weapon_roast);
    push_num_item(out, "First Bloods", p.first_blood_kill);
    push_num_item(out, "First Deaths", p.first_blood_victim);
    out.append("\n");
}

fn push_stack(out: &mut String, s: &StackData)
    ensures
        final(out)@ =~= old(out)@ + stack_text(*s),
{
    out.append("**Team Synergy**\n");
    push_pair_item(out, "Win Partner", &s.win_partner, &s.win_partner_agent);
    push_pair_item(out, "Loss Partner", &s.loss_partner, &s.loss_partner_agent);
    push_pair_item(out, "Most Assisted", &s.most_assisted, &s.most_assisted_agent);
    push_pair_item(out, "Assisted By", &s.most_assisted_by, &s.most_assisted_by_agent);
    out.append("\n");
    out.append("**Headshot Insights**\n");
    push_item(out, "Highest HS%", &s.headshot_highest);
    push_item(out, "Lowest HS%", &s.headshot_lowest);
    push_item(out, "Last Man Standing (Most)", &s.last_man_standing_most);
    push_item(out, "Last Man Standing (Least)", &s.last_man_standing_least);
    out.append("\n");
}

fn push_recommendations(out: &mut String, r: &RecommendationsData)
    ensures
        final(out)@ =~= old(out)@ + recommendations_text(*r),
{
    out.append("**Community Picks**\n");
    push_item(out, "Pro", &r.pro);
    push_item(out, "Influencer", &r.influencer);
    out.append("\n");
}

/// The description of a player's season.
pub fn player_description(user: &UserData) -> (r: String)
    ensures
        r@ == player_text(*user),
{
    let mut desc = String::new();
    let ghost a = desc@;
    match &user.riot_id_combined {
        Some(id) => {
            desc.append("**Player:** ");
            desc.append(id.as_str());
            desc.append("\n\n");
        },
        None => {},
    }
    let ghost b = desc@;
    match &user.personal {
        Some(p) => push_personal(&mut desc, p),
        None => {},
    }
    let ghost c = desc@;
    match &user.stack {
        Some(s) => push_stack(&mut desc, s),
        None => {},
    }
    let ghost d = desc@;
    match &user.recommendations {
        Some(r) => push_recommendations(&mut desc, r),
        None => {},
    }
    assert(desc@ =~= player_text(*user));
    desc
}

// ---------------------------------------------------------------------------
// The card and the rest of the command
// ---------------------------------------------------------------------------

/// What the player's embed shows; the app adds the time it was made.
pub struct PlayerCard {
    pub title: String,
    pub url: String,
    pub thumbnail: String,
    pub color: u32,
    pub description: String,
    pub footer: String,
    pub footer_icon: String,
}

/// The embed for a player: a fixed title, link, picture and color, the
/// player's description, and the id that was asked for, with the bot's
/// picture, in the footer.
pub fn create_player_embed(user: &UserData, player_id: &str, bot_avatar: &str) -> (r: PlayerCard)
    ensures
        r.title@ == "Valorant Flashback 2025"@,
        r.url@ == "https://flashback.playvalorant.com/"@,
        r.thumbnail@ == "https://flashback.playvalorant.com/apple-icon.png"@,
        r.color == 0xfa4454,
        r.description@ == player_text(*user),
        r.footer@ == player_id@,
        r.footer_icon@ == bot_avatar@,
{
    PlayerCard {
        title: owned("Valorant Flashback 2025"),
        url: owned("https://flashback.playvalorant.com/"),
        thumbnail: owned("https://flashback.playvalorant.com/apple-icon.png"),
        color: 0xfa4454,
        description: player_description(user),
        footer: owned(player_id),
        footer_icon: owned(bot_avatar),
    }
}

/// The flashback command.
pub struct Flashback;

impl Flashback {
    /// The command's name.
    pub fn name(&self) -> (r: &'static str)
        ensures
            r@ == "flashback"@,
    {
        "flashback"
    }

    /// What the command does.
    pub fn description(&self) -> (r: &'static str)
        ensures
            r@ == "Query Valorant player data by ID"@,
    {
        "Query Valorant player data by ID"
    }

    /// The word that starts the prefix form.
    pub fn prefix(&self) -> (r: Option<&'static str>)
        ensures
            r matches Some(p) && p@ == "flashback"@,
    {
        Some("flashback")
    }

    /// The time a user waits between two uses, in seconds.
    pub fn cooldown_secs(&self) -> (r: u64)
        ensures
            r == 3,
    {
        3
    }
}

/// The address of the service's lookup.
pub fn api_url() -> (r: String)
    ensures
        r@ == "https://eag6oc2f1c.execute-api.us-west-2.amazonaws.com"@ + "/dev/get-user"@,
{
    let mut r = owned("https://eag6oc2f1c.execute-api.us-west-2.amazonaws.com");
    r.append("/dev/get-user");
    r
}

/// The player id of a slash command: the text of the first option named
/// `player-id` that holds text; otherwise the error to report.
pub open spec fn slash_player_id_spec(options: Seq<(Seq<char>, Option<Seq<char>>)>) -> Result<
    Seq<char>,
    Seq<char>,
>
    decreases options.len(),
{
    if options.len() == 0 {
        Err("Missing or invalid player-id"@)
    } else if options[0].0 == "player-id"@ && options[0].1 is Some {
        Ok(options[0].1.unwrap())
    } else {
        slash_player_id_spec(options.drop_first())
    }
}

/// The views of options given as name and optional text.
pub open spec fn option_views(options: Seq<(&str, Option<&str>)>) -> Seq<(Seq<char>, Option<Seq<char>>)> {
    options.map_values(
        |o: (&str, Option<&str>)|
            (
                o.0@,
                match o.1 {
                    Some(t) => Some(t@),
                    None => None,
                },
            ),
    )
}

/// Finds the player id among a slash command's options.
pub fn extract_player_id_slash(options: &[(&str, Option<&str>)]) -> (r: Result<String, String>)
    ensures
        match r {
            Ok(id) => slash_player_id_spec(option_views(options@)) == Ok::<Seq<char>, Seq<char>>(id@),
            Err(e) => slash_player_id_spec(option_views(options@)) == Err::<Seq<char>, Seq<char>>(e@),
        },
{
    let mut i: usize = 0;
    assert(option_views(options@).skip(0) =~= option_views(options@));
    while i < options.len()
        invariant
            i <= options@.len(),
            slash_player_id_spec(option_views(options@).skip(i as int)) == slash_player_id_spec(
                option_views(options@),
            ),
        decreases options@.len() - i,
    {
        let ghost rest = option_views(options@).skip(i as int);
        assert(rest.drop_first() =~= option_views(options@).skip(i + 1));
        let (name, value) = options[i];
        if crate::text::same_text(name, "player-id") {
            match value {
                Some(v) => {
                    return Ok(owned(v));
                },
                None => {},
            }
        }
        i = i + 1;
    }
    assert(option_views(options@).skip(i as int) =~= Seq::<(Seq<char>, Option<Seq<char>>)>::empty());
    Err(owned("Missing or invalid player-id"))
}

/// The player id of a prefix command: its words joined by spaces; none when
/// there are no words.
pub fn player_id_from_args(args: &[&str]) -> (r: Option<String>)
    ensures
        args@.len() == 0 <==> r is None,
        r matches Some(id) ==> id@ == join_spec(str_views(args@), " "@),
{
    if args.len() == 0 {
        return None;
    }
    Some(str_join(args, " "))
}

/// The answer to a lookup of `player_id`: the player's card when the
/// service knows the player, otherwise the notice that it does not.
pub fn flashback_reply(res: &FlashbackResponse, player_id: &str, bot_avatar: &str) -> (r: Result<
    PlayerCard,
    String,
>)
    ensures
        res.user is Some <==> r is Ok,
        r matches Ok(card) ==> {
            &&& card.title@ == "Valorant Flashback 2025"@
            &&& card.url@ == "https://flashback.playvalorant.com/"@
            &&& card.thumbnail@ == "https://flashback.playvalorant.com/apple-icon.png"@
            &&& card.color == 0xfa4454
            &&& card.description@ == player_text(res.user.unwrap())
            &&& card.footer@ == player_id@
            &&& card.footer_icon@ == bot_avatar@
        },
        r matches Err(e) ==> e@ == "No player data found for `"@ + player_id@ + "`."@,
{
    match &res.user {
        Some(user) => Ok(create_player_embed(user, player_id, bot_avatar)),
        None => Err(no_data_text(player_id)),
    }
}

/// The notice when the service could not be asked or its answer not read.
pub fn fetch_failed_text() -> (r: &'static str)
    ensures
        r@ == "Failed to fetch player data."@,
{
    "Failed to fetch player data."
}

/// The notice of a prefix command without a player id.
pub fn missing_player_id_text() -> (r: &'static str)
    ensures
        r@ == "Please provide a valid player ID!"@,
{
    "Please provide a valid player ID!"
}

/// The notice when the service knows no such player.
pub fn no_data_text(player_id: &str) -> (r: String)
    ensures
        r@ == "No player data found for `"@ + player_id@ + "`."@,
{
    let mut r = owned("No player data found for `");
    r.append(player_id);
    r.append("`.");
    r
}

/// The lines "Kills Most" and "Killed By", then the end of the highlights
/// and the start of the combat part, as a player's personal data gives
/// them: each line shows the field it is named after, and is left out when
/// that field is missing.
pub open spec fn kills_block(p: PersonalData) -> Seq<char> {
    (match p.agent_killed_most {
        Some(x) => "- Kills Most: "@ + x@ + "\n"@,
        None => Seq::<char>::empty(),
    }) + (match p.agent_most_killed_by {
        Some(y) => "- Killed By: "@ + y@ + "\n"@,
        None => Seq::<char>::empty(),
    }) + "\n"@ + "**Combat Performance**\n"@
}

proof fn lemma_labels()
    ensures
        "- "@ + "Kills Most"@ + ": "@ == "- Kills Most: "@,
        "- "@ + "Killed By"@ + ": "@ == "- Killed By: "@,
{
    reveal_strlit("- ");
    reveal_strlit(": ");
    reveal_strlit("Kills Most");
    reveal_strlit("Killed By");
    reveal_strlit("- Kills Most: ");
    reveal_strlit("- Killed By: ");
    assert("- "@ + "Kills Most"@ + ": "@ =~= "- Kills Most: "@);
    assert("- "@ + "Killed By"@ + ": "@ =~= "- Killed By: "@);
}

/// Regrouping a concatenation of fourteen pieces as three.
proof fn lemma_regroup(
    h: Seq<char>,
    i1: Seq<char>,
    i2: Seq<char>,
    i3: Seq<char>,
    k: Seq<char>,
    b: Seq<char>,
    n: Seq<char>,
    c: Seq<char>,
    r1: Seq<char>,
    r2: Seq<char>,
    r3: Seq<char>,
    r4: Seq<char>,
    r5: Seq<char>,
    r6: Seq<char>,
    e: Seq<char>,
)
    ensures
        h + i1 + i2 + i3 + k + b + n + c + r1 + r2 + r3 + r4 + r5 + r6 + e == (h + i1 + i2 + i3) + (k + b
            + n + c) + (r1 + r2 + r3 + r4 + r5 + r6 + e),
{
    assert(h + i1 + i2 + i3 + k + b + n + c + r1 + r2 + r3 + r4 + r5 + r6 + e =~= (h + i1 + i2 + i3) + (k
        + b + n + c) + (r1 + r2 + r3 + r4 + r5 + r6 + e));
}

/// The "Kills Most" or "Killed By" item, written out.
proof fn lemma_kill_items(p: PersonalData)
    ensures
        item("Kills Most"@, opt_view(p.agent_killed_most)) == (match p.agent_killed_most {
            Some(x) => "- Kills Most: "@ + x@ + "\n"@,
            None => Seq::<char>::empty(),
        }),
        item("Killed By"@, opt_view(p.agent_most_killed_by)) == (match p.agent_most_killed_by {
            Some(y) => "- Killed By: "@ + y@ + "\n"@,
            None => Seq::<char>::empty(),
        }),
{
    lemma_labels();
    match p.agent_killed_most {
        Some(x) => {
            assert("- "@ + "Kills Most"@ + ": "@ + x@ + "\n"@ =~= "- Kills Most: "@ + x@ + "\n"@);
        },
        None => {},
    }
    match p.agent_most_killed_by {
        Some(y) => {
            assert("- "@ + "Killed By"@ + ": "@ + y@ + "\n"@ =~= "- Killed By: "@ + y@ + "\n"@);
        },
        None => {},
    }
}

/// The personal part, split where the "Kills Most" line goes: what comes
/// before it, the block of [`kills_block`], and what comes after.
proof fn lemma_personal_split(p: PersonalData) -> (r: (Seq<char>, Seq<char>))
    ensures
        personal_text(p) == r.0 + kills_block(p) + r.1,
{
    lemma_kill_items(p);
    let h = "**Personal Highlights**\n"@;
    let i1 = item("Most Played"@, opt_view(p.most_played_agent));
    let i2 = item("Best Agent"@, opt_view(p.best_agent));
    let i3 = item("Worst Agent"@, opt_view(p.worst_agent));
    let k = item("Kills Most"@, opt_view(p.agent_killed_most));
    let b = item("Killed By"@, opt_view(p.agent_most_killed_by));
    let n = "\n"@;
    let c = "**Combat Performance**\n"@;
    let r1 = num_item("Clutch Boast"@, p.clutch_boast);
    let r2 = num_item("Clutch Roast"@, p.clutch_roast);
    let r3 = item("Best Weapon"@, opt_view(p.weapon_boast));
    let r4 = item("Worst Weapon"@, opt_view(p.weapon_roast));
    let r5 = num_item("First Bloods"@, p.first_blood_kill);
    let r6 = num_item("First Deaths"@, p.first_blood_victim);
    let e = "\n"@;
    lemma_regroup(h, i1, i2, i3, k, b, n, c, r1, r2, r3, r4, r5, r6, e);
    assert(kills_block(p) == k + b + n + c);
    (h + i1 + i2 + i3, r1 + r2 + r3 + r4 + r5 + r6 + e)
}

/// Regrouping the description around the block.
proof fn lemma_regroup_desc(
    pre: Seq<char>,
    a: Seq<char>,
    blk: Seq<char>,
    rest: Seq<char>,
    st: Seq<char>,
    rc: Seq<char>,
)
    ensures
        pre + (a + blk + rest) + st + rc == (pre + a) + blk + (rest + st + rc),
{
    assert(pre + (a + blk + rest) + st + rc =~= (pre + a) + blk + (rest + st + rc));
}

/// The description of a player with personal data: the player line, the
/// personal part, the team part and the recommendations.
proof fn lemma_player_parts(u: UserData, p: PersonalData)
    requires
        u.personal == Some(p),
    ensures
        player_text(u) == (match u.riot_id_combined {
            Some(id) => "**Player:** "@ + id@ + "\n\n"@,
            None => Seq::<char>::empty(),
        }) + personal_text(p) + (match u.stack {
            Some(s) => stack_text(s),
            None => Seq::<char>::empty(),
        }) + (match u.recommendations {
            Some(r) => recommendations_text(r),
            None => Seq::<char>::empty(),
        }),
{
}

/// Where a piece stands in a concatenation of three.
proof fn lemma_middle(x: Seq<char>, y: Seq<char>, z: Seq<char>)
    ensures
        (x + y + z).subrange(x.len() as int, (x.len() + y.len()) as int) == y,
{
    assert((x + y + z).subrange(x.len() as int, (x.len() + y.len()) as int) =~= y);
}

/// In the player card's description, the "Kills Most" line shows the agent
/// the player killed most and the "Killed By" line the agent that killed
/// the player most (each only when known), right before the combat part;
/// both in the personal part and in the whole description.
pub proof fn law_kills_lines_show_their_fields(u: UserData, p: PersonalData)
    ensures
        exists|i: int|
            0 <= i && i + kills_block(p).len() <= personal_text(p).len() && #[trigger] personal_text(
                p,
            ).subrange(i, i + kills_block(p).len()) == kills_block(p),
        u.personal == Some(p) ==> exists|i: int|
            0 <= i && i + kills_block(p).len() <= player_text(u).len() && #[trigger] player_text(
                u,
            ).subrange(i, i + kills_block(p).len()) == kills_block(p),
{
    let (a, rest) = lemma_personal_split(p);
    let blk = kills_block(p);
    lemma_middle(a, blk, rest);
    let i0: int = a.len() as int;
    assert(personal_text(p).subrange(i0, i0 + blk.len()) == blk);
    if u.personal == Some(p) {
        let pre = match u.riot_id_combined {
            Some(id) => "**Player:** "@ + id@ + "\n\n"@,
            None => Seq::<char>::empty(),
        };
        let st = match u.stack {
            Some(s) => stack_text(s),
            None => Seq::<char>::empty(),
        };
        let rc = match u.recommendations {
            Some(r) => recommendations_text(r),
            None => Seq::<char>::empty(),
        };
        lemma_player_parts(u, p);
        lemma_regroup_desc(pre, a, blk, rest, st, rc);
        lemma_middle(pre + a, blk, rest + st + rc);
        let j: int = (pre + a).len() as int;
        assert(player_text(u).subrange(j, j + blk.len()) == blk);
    }
}

} // verus!
