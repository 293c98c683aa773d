use mewbot::bot_core::reply::Reply;
use mewbot::commands::flashback::{
    api_url, create_player_embed, extract_player_id_slash, flashback_reply, no_data_text,
    player_description, player_id_from_args, FlashbackResponse, PersonalData, RecommendationsData,
    StackData, UserData,
};
use mewbot::commands::voice::{leave_step, lofi_step, LeaveEvent, LofiEvent, VoiceAction};

fn s(x: &str) -> Option<String> {
    Some(x.to_string())
}

fn sample_user() -> UserData {
    UserData {
        riot_id_name: s("Neo"),
        riot_id_tag: s("1234"),
        riot_id_combined: s("Neo#1234"),
        riot_id_combined_lower: s("neo#1234"),
        qualified: Some(1),
        personal: Some(PersonalData {
            most_played_agent: s("Jett"),
            best_agent: None,
            worst_agent: s("Sage"),
            agent_killed_most: None,
            agent_most_killed_by: None,
            clutch_boast: Some(12),
            clutch_roast: Some(-3),
            weapon_boast: s("Vandal"),
            weapon_roast: None,
            first_blood_kill: None,
            first_blood_victim: Some(0),
        }),
        stack: Some(StackData {
            qualified: None,
            win_partner: s("Trin"),
            win_partner_agent: s("Omen"),
            loss_partner: s("Smith"),
            loss_partner_agent: None,
            most_assisted: None,
            most_assisted_agent: s("ignored"),
            most_assisted_by: None,
            most_assisted_by_agent: None,
            headshot_highest: s("31%"),
            headshot_lowest: None,
            last_man_standing_most: None,
            last_man_standing_least: s("Cypher"),
        }),
        recommendations: Some(RecommendationsData { pro: s("TenZ"), influencer: None }),
    }
}

#[test]
fn player_description_lists_what_is_known() {
    let d = player_description(&sample_user());
    let expected = "**Player:** Neo#1234\n\n\
**Personal Highlights**\n- Most Played: Jett\n- Worst Agent: Sage\n\n\
**Combat Performance**\n- Clutch Boast: 12\n- Clutch Roast: -3\n- Best Weapon: Vandal\n- First Deaths: 0\n\n\
**Team Synergy**\n- Win Partner: Trin (Omen)\n- Loss Partner: Smith\n\n\
**Headshot Insights**\n- Highest HS%: 31%\n- Last Man Standing (Least): Cypher\n\n\
**Community Picks**\n- Pro: TenZ\n\n";
    assert_eq!(d, expected);
}

#[test]
fn empty_player_has_empty_description() {
    let u = UserData {
        riot_id_name: None,
        riot_id_tag: None,
        riot_id_combined: None,
        riot_id_combined_lower: None,
        qualified: None,
        personal: None,
        stack: None,
        recommendations: None,
    };
    assert_eq!(player_description(&u), "");
}

#[test]
fn player_card() {
    let card = create_player_embed(&sample_user(), "Neo#1234", "https://avatar");
    assert_eq!(card.title, "Valorant Flashback 2025");
    assert_eq!(card.url, "https://flashback.playvalorant.com/");
    assert_eq!(card.thumbnail, "https://flashback.playvalorant.com/apple-icon.png");
    assert_eq!(card.color, 0xfa4454);
    assert_eq!(card.footer, "Neo#1234");
    assert_eq!(card.footer_icon, "https://avatar");
    assert!(card.description.starts_with("**Player:** Neo#1234"));
}

#[test]
fn flashback_replies() {
    let res = FlashbackResponse { is_qualified: Some(1), user: Some(sample_user()) };
    assert!(flashback_reply(&res, "Neo#1234", "").is_ok());
    let res = FlashbackResponse { is_qualified: None, user: None };
    assert_eq!(
        flashback_reply(&res, "Ghost#0", "").err().unwrap(),
        "No player data found for `Ghost#0`."
    );
    assert_eq!(no_data_text("x"), "No player data found for `x`.");
    assert_eq!(api_url(), "https://eag6oc2f1c.execute-api.us-west-2.amazonaws.com/dev/get-user");
}

#[test]
fn player_ids() {
    assert_eq!(player_id_from_args(&[]), None);
    assert_eq!(player_id_from_args(&["Neo", "#1234"]), Some("Neo #1234".to_string()));
    assert_eq!(
        extract_player_id_slash(&[("other", Some("x")), ("player-id", None), ("player-id", Some("A#1"))]),
        Ok("A#1".to_string())
    );
    assert_eq!(
        extract_player_id_slash(&[("other", Some("x"))]),
        Err("Missing or invalid player-id".to_string())
    );
}

fn answer_text(a: &VoiceAction) -> String {
    match a {
        VoiceAction::Answer(Reply::Notice(t)) => t.clone(),
        VoiceAction::Answer(Reply::Embed(_, d, _)) => d.clone(),
        VoiceAction::LeaveThenAnswer(Reply::Notice(t)) => t.clone(),
        VoiceAction::PlayThenAnswer(Reply::Embed(_, d, _)) => d.clone(),
        VoiceAction::Fail(e) => e.clone(),
        _ => panic!("no text"),
    }
}

#[test]
fn lofi_steps() {
    assert_eq!(
        answer_text(&lofi_step(LofiEvent::Requested(false, true, Some(1)))),
        "This command can only be used in a server!"
    );
    assert_eq!(
        answer_text(&lofi_step(LofiEvent::Requested(true, false, Some(1)))),
        "Could not find guild information."
    );
    assert_eq!(
        answer_text(&lofi_step(LofiEvent::Requested(true, true, None))),
        "You need to be in a voice channel!"
    );
    assert!(matches!(lofi_step(LofiEvent::Requested(true, true, Some(55))), VoiceAction::Join(55)));
    match lofi_step(LofiEvent::Joined(55, Ok(()))) {
        VoiceAction::OpenStream(url, c) => {
            assert_eq!(url, "https://lofi4u.com/api/stream/live");
            assert_eq!(c, 55);
        }
        _ => panic!(),
    }
    assert_eq!(
        answer_text(&lofi_step(LofiEvent::Joined(55, Err("denied".to_string())))),
        "Failed to join voice channel: denied"
    );
    assert_eq!(
        answer_text(&lofi_step(LofiEvent::StreamOpened(55, Err("no ffmpeg".to_string())))),
        "Failed to create audio source: no ffmpeg. Make sure FFmpeg is installed and accessible."
    );
    assert_eq!(
        answer_text(&lofi_step(LofiEvent::StreamOpened(55, Ok(())))),
        "Now streaming lofi music in <#55>!\n\nThe bot will stay connected 24/7 until you use `/leave` or kick it."
    );
    assert_eq!(
        answer_text(&lofi_step(LofiEvent::NoVoiceClient)),
        "Songbird voice client not initialized"
    );
}

#[test]
fn leave_steps() {
    assert!(leave_step(LeaveEvent::Requested(true)).is_none());
    assert_eq!(
        answer_text(&leave_step(LeaveEvent::Requested(false)).unwrap()),
        "This command can only be used in a server!"
    );
    assert_eq!(
        answer_text(&leave_step(LeaveEvent::Connected(false)).unwrap()),
        "I'm not connected to any voice channel!"
    );
    assert!(matches!(leave_step(LeaveEvent::Connected(true)), Some(VoiceAction::Leave)));
    match leave_step(LeaveEvent::Left(Ok(()))) {
        Some(VoiceAction::Answer(Reply::Embed(t, d, c))) => {
            assert_eq!(t, "👋 Left Voice Channel");
            assert_eq!(d, "Successfully disconnected from the voice channel.");
            assert_eq!(c, 0x00ff00);
        }
        _ => panic!(),
    }
    assert_eq!(
        answer_text(&leave_step(LeaveEvent::Left(Err("x".to_string()))).unwrap()),
        "Failed to leave voice channel: x"
    );
}
