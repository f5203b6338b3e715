use vstd::prelude::*;
use crate::models::teams::{Team, TeamResponse, TeamsResponse};
use crate::text::text;
use crate::utils::errors::{status_reply, CustomError, StatusReply};

verus! {

/// The reply carries the team and the message.
pub open spec fn team_ok(reply: TeamResponse, team: Team, message: Seq<char>) -> bool {
    &&& reply.success
    &&& reply.team == Some(team)
    &&& reply.message matches Some(m) && m@ == message
}

/// The reply reports the failure with the message.
pub open spec fn team_failed(reply: TeamResponse, message: Seq<char>) -> bool {
    &&& !reply.success
    &&& reply.team is None
    &&& reply.message matches Some(m) && m@ == message
}

fn team_reply(r: Result<Team, CustomError>, ok_status: u16, ok_message: &str, err_status: u16) -> (out:
    (u16, TeamResponse))
    ensures
        match r {
            Ok(t) => out.0 == ok_status && team_ok(out.1, t, ok_message@),
            Err(e) => out.0 == err_status && team_failed(out.1, e.label() + e.detail()),
        },
{
    match r {
        Ok(team) => (
            ok_status,
            TeamResponse { success: true, team: Some(team), message: Some(text(ok_message)) },
        ),
        Err(e) => (err_status, TeamResponse { success: false, team: None, message: Some(e.to_string()) }),
    }
}

/// 201 with the created team, or 400 with the error.
pub fn create_team_reply(r: Result<Team, CustomError>) -> (out: (u16, TeamResponse))
    ensures
        match r {
            Ok(t) => out.0 == 201 && team_ok(out.1, t, "Team created successfully"@),
            Err(e) => out.0 == 400 && team_failed(out.1, e.label() + e.detail()),
        },
{
    team_reply(r, 201, "Team created successfully", 400)
}

/// 200 with the team, 404 when there is none, or 500 with the error.
pub fn get_team_reply(r: Result<Option<Team>, CustomError>) -> (out: (u16, TeamResponse))
    ensures
        match r {
            Ok(Some(t)) => out.0 == 200 && team_ok(out.1, t, "Team retrieved successfully"@),
            Ok(None) => out.0 == 404 && team_failed(out.1, "Team not found"@),
            Err(e) => out.0 == 500 && team_failed(out.1, e.label() + e.detail()),
        },
{
    match r {
        Ok(Some(team)) => team_reply(Ok(team), 200, "Team retrieved successfully", 500),
        Ok(None) => (
            404,
            TeamResponse { success: false, team: None, message: Some(text("Team not found")) },
        ),
        Err(e) => team_reply(Err(e), 200, "", 500),
    }
}

/// 200 with the user's teams, or 500 with the error and no teams.
pub fn user_teams_reply(r: Result<Vec<Team>, CustomError>) -> (out: (u16, TeamsResponse))
    ensures
        match r {
            Ok(ts) => out.0 == 200 && out.1.success && out.1.teams == ts && (out.1.message matches Some(
                m,
            ) && m@ == "User teams retrieved successfully"@),
            Err(e) => out.0 == 500 && !out.1.success && out.1.teams@.len() == 0 && (out.1.message matches Some(
                m,
            ) && m@ == e.label() + e.detail()),
        },
{
    match r {
        Ok(teams) => (
            200,
            TeamsResponse {
                success: true,
                teams,
                message: Some(text("User teams retrieved successfully")),
            },
        ),
        Err(e) => (500, TeamsResponse { success: false, teams: Vec::new(), message: Some(e.to_string()) }),
    }
}

/// 200 with the updated team, or 400 with the error.
pub fn update_team_reply(r: Result<Team, CustomError>) -> (out: (u16, TeamResponse))
    ensures
        match r {
            Ok(t) => out.0 == 200 && team_ok(out.1, t, "Team updated successfully"@),
            Err(e) => out.0 == 400 && team_failed(out.1, e.label() + e.detail()),
        },
{
    team_reply(r, 200, "Team updated successfully", 400)
}

/// 200 with the team after the member joined, or 400 with the error.
pub fn add_member_reply(r: Result<Team, CustomError>) -> (out: (u16, TeamResponse))
    ensures
        match r {
            Ok(t) => out.0 == 200 && team_ok(out.1, t, "Member added successfully"@),
            Err(e) => out.0 == 400 && team_failed(out.1, e.label() + e.detail()),
        },
{
    team_reply(r, 200, "Member added successfully", 400)
}

/// 200 with the team after the member left, or 400 with the error.
pub fn remove_member_reply(r: Result<Team, CustomError>) -> (out: (u16, TeamResponse))
    ensures
        match r {
            Ok(t) => out.0 == 200 && team_ok(out.1, t, "Member removed successfully"@),
            Err(e) => out.0 == 400 && team_failed(out.1, e.label() + e.detail()),
        },
{
    team_reply(r, 200, "Member removed successfully", 400)
}

/// 200 "Successfully left the team", or 400 with the error.
pub fn leave_team_reply(r: Result<(), CustomError>) -> (out: (u16, StatusReply))
    ensures
        match r {
            Ok(_) => out.0 == 200 && out.1.success && out.1.message@ == "Successfully left the team"@,
            Err(e) => out.0 == 400 && !out.1.success && out.1.message@ == e.label() + e.detail(),
        },
{
    status_reply(r, 200, "Successfully left the team")
}

/// 200 "Team deleted successfully", or 400 with the error.
pub fn delete_team_reply(r: Result<(), CustomError>) -> (out: (u16, StatusReply))
    ensures
        match r {
            Ok(_) => out.0 == 200 && out.1.success && out.1.message@ == "Team deleted successfully"@,
            Err(e) => out.0 == 400 && !out.1.success && out.1.message@ == e.label() + e.detail(),
        },
{
    status_reply(r, 200, "Team deleted successfully")
}

} // verus!
