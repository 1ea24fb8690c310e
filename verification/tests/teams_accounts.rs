//! The stored shapes and the session data.

use pokerbots::accounts::{TeamData, UserData};
use pokerbots::teams::{Bot, BotWithTeam, Team};

#[test]
fn joining_a_bot_with_its_team_keeps_every_field() {
    let team = Team {
        id: 9,
        name: "ferris".to_string(),
        active_bot: Some(4),
        score: 1520,
    };
    let bot = Bot {
        id: 4,
        team: 9,
        name: "allin".to_string(),
        description: Some("always raises".to_string()),
        rating: 1_520_000,
        created: 1700000000,
        uploaded_by: "crab@example.org".to_string(),
        build_status: 2,
    };
    let joined = BotWithTeam::from_parts(bot, team);
    assert_eq!(joined.id, 4);
    assert_eq!(joined.name, "allin");
    assert_eq!(joined.description, Some("always raises".to_string()));
    assert_eq!(joined.rating, 1_520_000);
    assert_eq!(joined.created, 1700000000);
    assert_eq!(joined.uploaded_by, "crab@example.org");
    assert_eq!(joined.build_status, 2);
    assert_eq!(joined.team.id, 9);
    assert_eq!(joined.team.active_bot, Some(4));
    assert_eq!(joined.team.score, 1520);
}

#[test]
fn session_data_carries_users_and_teams() {
    let user = UserData {
        email: "crab@example.org".to_string(),
        displayName: "Crab".to_string(),
    };
    let team = TeamData {
        name: "ferris".to_string(),
        members: vec![user.clone()],
    };
    assert_eq!(team.members.len(), 1);
    assert_eq!(team.members[0].email, "crab@example.org");
    assert_eq!(team.members[0].displayName, "Crab");
    assert_eq!(team.name, "ferris");
}
