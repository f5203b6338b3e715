use vstd::prelude::*;
use crate::models::company::{
    CompaniesResponse, Company, CompanyResponse, CompanyWithUsernames, CompanyWithUsernamesResponse,
};
use crate::text::text;
use crate::utils::errors::{status_reply, CustomError, StatusReply};

verus! {

/// The reply carries the company and the message.
pub open spec fn company_ok(reply: CompanyResponse, company: Company, message: Seq<char>) -> bool {
    &&& reply.success
    &&& reply.company == Some(company)
    &&& reply.message matches Some(m) && m@ == message
}

/// The reply reports the failure with the message.
pub open spec fn company_failed(reply: CompanyResponse, message: Seq<char>) -> bool {
    &&& !reply.success
    &&& reply.company is None
    &&& reply.message matches Some(m) && m@ == message
}

fn company_reply(r: Result<Company, CustomError>, ok_status: u16, ok_message: &str, err_status: u16) -> (out:
    (u16, CompanyResponse))
    ensures
        match r {
            Ok(c) => out.0 == ok_status && company_ok(out.1, c, ok_message@),
            Err(e) => out.0 == err_status && company_failed(out.1, e.label() + e.detail()),
        },
{
    match r {
        Ok(c) => (
            ok_status,
            CompanyResponse { success: true, company: Some(c), message: Some(text(ok_message)) },
        ),
        Err(e) => (
            err_status,
            CompanyResponse { success: false, company: None, message: Some(e.to_string()) },
        ),
    }
}

/// 201 with the created company, or 400 with the error.
pub fn create_company_reply(r: Result<Company, CustomError>) -> (out: (u16, CompanyResponse))
    ensures
        match r {
            Ok(c) => out.0 == 201 && company_ok(out.1, c, "Company created successfully"@),
            Err(e) => out.0 == 400 && company_failed(out.1, e.label() + e.detail()),
        },
{
    company_reply(r, 201, "Company created successfully", 400)
}

/// 200 with the company, 404 when there is none, or 500 with the error.
pub fn get_company_reply(r: Result<Option<Company>, CustomError>) -> (out: (u16, CompanyResponse))
    ensures
        match r {
            Ok(Some(c)) => out.0 == 200 && company_ok(out.1, c, "Company retrieved successfully"@),
            Ok(None) => out.0 == 404 && company_failed(out.1, "Company not found"@),
            Err(e) => out.0 == 500 && company_failed(out.1, e.label() + e.detail()),
        },
{
    match r {
        Ok(Some(c)) => company_reply(Ok(c), 200, "Company retrieved successfully", 500),
        Ok(None) => (
            404,
            CompanyResponse { success: false, company: None, message: Some(text("Company not found")) },
        ),
        Err(e) => company_reply(Err(e), 200, "", 500),
    }
}

/// 200 with the user's companies, or 500 with the error and no companies.
pub fn user_companies_reply(r: Result<Vec<Company>, CustomError>) -> (out: (u16, CompaniesResponse))
    ensures
        match r {
            Ok(cs) => out.0 == 200 && out.1.success && out.1.companies == cs && (out.1.message matches Some(
                m,
            ) && m@ == "User companies retrieved successfully"@),
            Err(e) => out.0 == 500 && !out.1.success && out.1.companies@.len() == 0 && (out.1.message matches Some(
                m,
            ) && m@ == e.label() + e.detail()),
        },
{
    match r {
        Ok(companies) => (
            200,
            CompaniesResponse {
                success: true,
                companies,
                message: Some(text("User companies retrieved successfully")),
            },
        ),
        Err(e) => (
            500,
            CompaniesResponse { success: false, companies: Vec::new(), message: Some(e.to_string()) },
        ),
    }
}

/// 200 with the updated company, or 400 with the error.
pub fn update_company_reply(r: Result<Company, CustomError>) -> (out: (u16, CompanyResponse))
    ensures
        match r {
            Ok(c) => out.0 == 200 && company_ok(out.1, c, "Company updated successfully"@),
            Err(e) => out.0 == 400 && company_failed(out.1, e.label() + e.detail()),
        },
{
    company_reply(r, 200, "Company updated successfully", 400)
}

/// 200 "Company deleted successfully", or 400 with the error.
pub fn delete_company_reply(r: Result<(), CustomError>) -> (out: (u16, StatusReply))
    ensures
        match r {
            Ok(_) => out.0 == 200 && out.1.success && out.1.message@ == "Company deleted successfully"@,
            Err(e) => out.0 == 400 && !out.1.success && out.1.message@ == e.label() + e.detail(),
        },
{
    status_reply(r, 200, "Company deleted successfully")
}

/// 200 with the company and its members' names, or 500 with the error.
pub fn company_with_usernames_reply(r: Result<CompanyWithUsernames, CustomError>) -> (out: (
    u16,
    CompanyWithUsernamesResponse,
))
    ensures
        match r {
            Ok(c) => out.0 == 200 && out.1.success && out.1.company == Some(c) && (out.1.message matches Some(
                m,
            ) && m@ == "Company retrieved successfully"@),
            Err(e) => out.0 == 500 && !out.1.success && out.1.company is None && (out.1.message matches Some(
                m,
            ) && m@ == e.label() + e.detail()),
        },
{
    match r {
        Ok(c) => (
            200,
            CompanyWithUsernamesResponse {
                success: true,
                company: Some(c),
                message: Some(text("Company retrieved successfully")),
            },
        ),
        Err(e) => (
            500,
            CompanyWithUsernamesResponse { success: false, company: None, message: Some(e.to_string()) },
        ),
    }
}

/// 200 with the company after the member joined, or 400 with the error.
pub fn add_member_reply(r: Result<Company, CustomError>) -> (out: (u16, CompanyResponse))
    ensures
        match r {
            Ok(c) => out.0 == 200 && company_ok(out.1, c, "Member added successfully"@),
            Err(e) => out.0 == 400 && company_failed(out.1, e.label() + e.detail()),
        },
{
    company_reply(r, 200, "Member added successfully", 400)
}

/// 200 with the company after the member left, or 400 with the error.
pub fn remove_member_reply(r: Result<Company, CustomError>) -> (out: (u16, CompanyResponse))
    ensures
        match r {
            Ok(c) => out.0 == 200 && company_ok(out.1, c, "Member removed successfully"@),
            Err(e) => out.0 == 400 && company_failed(out.1, e.label() + e.detail()),
        },
{
    company_reply(r, 200, "Member removed successfully", 400)
}

} // verus!
