use vstd::prelude::*;
use vstd::string::*;

verus! {

/// The operating system the service runs on.
#[derive(Debug, Clone)]
pub struct MetaOsInfo {
    pub os_type: String,
    pub release: String,
    pub hostname: String,
}

/// How the service was built.
#[derive(Debug, Clone)]
pub struct MetaAppInfo {
    pub git_hash: String,
    pub git_date: String,
    pub build_time: String,
    pub rustc_ver: String,
}

/// What the service reports about itself.
#[derive(Debug, Clone)]
pub struct MetaInfo {
    pub os: MetaOsInfo,
    pub app: MetaAppInfo,
}

/// A system value, or `Unknown` where it could not be read.
pub open spec fn or_unknown(value: Option<String>) -> Seq<char> {
    match value {
        Some(v) => v@,
        None => "Unknown"@,
    }
}

fn known_or_unknown(value: Option<String>) -> (r: String)
    ensures
        r@ == or_unknown(value),
{
    match value {
        Some(v) => v,
        None => String::from_str("Unknown"),
    }
}

/// The service's report from the system values that could be read (`None`
/// for one that could not, reported as `Unknown`) and the build values.
pub fn get_meta_info(
    os_type: Option<String>,
    os_release: Option<String>,
    hostname: Option<String>,
    git_hash: &str,
    git_date: &str,
    build_time: &str,
    rustc_ver: &str,
) -> (info: MetaInfo)
    ensures
        info.os.os_type@ == or_unknown(os_type),
        info.os.release@ == or_unknown(os_release),
        info.os.hostname@ == or_unknown(hostname),
        info.app.git_hash@ == git_hash@,
        info.app.git_date@ == git_date@,
        info.app.build_time@ == build_time@,
        info.app.rustc_ver@ == rustc_ver@,
{
    MetaInfo {
        os: MetaOsInfo {
            os_type: known_or_unknown(os_type),
            release: known_or_unknown(os_release),
            hostname: known_or_unknown(hostname),
        },
        app: MetaAppInfo {
            git_hash: String::from_str(git_hash),
            git_date: String::from_str(git_date),
            build_time: String::from_str(build_time),
            rustc_ver: String::from_str(rustc_ver),
        },
    }
}

/// The query of a profile request.
#[derive(Debug, Clone)]
pub struct GetProfileQuery {
    pub identity: Option<String>,
}

/// An HTTP error: its status code and message.
#[derive(Debug, Clone)]
pub struct ErrorResponse {
    pub status: u16,
    pub message: String,
}

/// The identity that a profile request asks for; 400 "identity is required"
/// where it gives none.
pub fn actor_identity(query: &GetProfileQuery) -> (r: Result<String, ErrorResponse>)
    ensures
        match query.identity {
            Some(id) => r == Ok::<String, ErrorResponse>(id),
            None => r matches Err(e) && e.status == 400 && e.message@ == "identity is required"@,
        },
{
    match &query.identity {
        Some(id) => Ok(id.clone()),
        None => Err(ErrorResponse { status: 400, message: String::from_str("identity is required") }),
    }
}

/// The answer to a profile request from what the store gave: the profile,
/// 404 "Profile not found" where there is none, and 500 with the store's
/// message where it failed.
pub fn actor_response<P>(lookup: Result<Option<P>, String>) -> (r: Result<P, ErrorResponse>)
    ensures
        match lookup {
            Ok(Some(p)) => r == Ok::<P, ErrorResponse>(p),
            Ok(None) => r matches Err(e) && e.status == 404 && e.message@ == "Profile not found"@,
            Err(m) => r matches Err(e) && e.status == 500 && e.message == m,
        },
{
    match lookup {
        Ok(Some(p)) => Ok(p),
        Ok(None) => Err(ErrorResponse { status: 404, message: String::from_str("Profile not found") }),
        Err(m) => Err(ErrorResponse { status: 500, message: m }),
    }
}

} // verus!
