//! The settings endpoint: validating and applying a partial update.
use vstd::prelude::*;
use crate::domain::settings::AppSettings;
use crate::server::error::ApiError;
use crate::text::{blank, is_blank};

verus! {

/// The settings as the API answers them, with the server's own paths and URL.
#[derive(Debug, Clone)]
pub struct SettingsResponse {
    pub user_name: String,
    pub default_model: String,
    pub ollama_url: String,
    pub assets_dir: String,
    pub backups_dir: String,
}

/// A partial settings update: a field that is `None` keeps its stored value.
#[derive(Debug, Clone)]
pub struct PatchSettingsRequest {
    pub user_name: Option<String>,
    pub default_model: Option<String>,
}

/// Whether a patch names a user name that is empty or only whitespace.
pub open spec fn patch_has_blank_name(req: PatchSettingsRequest) -> bool {
    req.user_name matches Some(n) && is_blank(n@)
}

/// The error that a blank user name gets.
pub open spec fn blank_user_name_error(e: ApiError) -> bool {
    e matches ApiError::BadRequest(m) && m@ == "user_name cannot be empty"@
}

/// The value of a field after a patch: the patch's value where it gives one.
pub open spec fn patched(current: String, given: Option<String>) -> String {
    match given {
        Some(v) => v,
        None => current,
    }
}

/// Refuses a patch whose user name is blank.
pub fn validate_settings_patch(req: &PatchSettingsRequest) -> (r: Result<(), ApiError>)
    ensures
        r is Err <==> patch_has_blank_name(*req),
        r matches Err(e) ==> blank_user_name_error(e),
{
    if let Some(name) = &req.user_name {
        if blank(name.as_str()) {
            return Err(ApiError::BadRequest("user_name cannot be empty".to_owned()));
        }
    }
    Ok(())
}

/// The settings after a patch: each field the patch gives replaces the stored one.
pub fn apply_settings_patch(current: AppSettings, req: PatchSettingsRequest) -> (r: AppSettings)
    ensures
        r.user_name == patched(current.user_name, req.user_name),
        r.default_model == patched(current.default_model, req.default_model),
{
    let user_name = match req.user_name {
        Some(v) => v,
        None => current.user_name,
    };
    let default_model = match req.default_model {
        Some(v) => v,
        None => current.default_model,
    };
    AppSettings { user_name, default_model }
}

/// The response for stored settings and the server's configuration.
pub fn settings_response(
    settings: AppSettings,
    ollama_url: String,
    assets_dir: String,
    backups_dir: String,
) -> (r: SettingsResponse)
    ensures
        r.user_name == settings.user_name,
        r.default_model == settings.default_model,
        r.ollama_url == ollama_url,
        r.assets_dir == assets_dir,
        r.backups_dir == backups_dir,
{
    SettingsResponse {
        user_name: settings.user_name,
        default_model: settings.default_model,
        ollama_url,
        assets_dir,
        backups_dir,
    }
}

/// A patch that gives no field leaves the settings as they are.
pub proof fn lemma_empty_patch_keeps_settings(current: AppSettings)
    ensures
        ({
            let req = PatchSettingsRequest { user_name: None, default_model: None };
            patched(current.user_name, req.user_name) == current.user_name
                && patched(current.default_model, req.default_model) == current.default_model
        }),
{
}

/// A patch changes only the fields it gives: the others keep their stored value.
pub proof fn lemma_patch_keeps_absent_fields(current: AppSettings, req: PatchSettingsRequest)
    ensures
        req.user_name is None ==> patched(current.user_name, req.user_name) == current.user_name,
        req.default_model is None ==> patched(current.default_model, req.default_model)
            == current.default_model,
{
}

/// Applying the same patch twice gives what applying it once gives.
pub proof fn lemma_patch_idempotent(current: AppSettings, req: PatchSettingsRequest)
    ensures
        patched(patched(current.user_name, req.user_name), req.user_name) == patched(
            current.user_name,
            req.user_name,
        ),
        patched(patched(current.default_model, req.default_model), req.default_model)
            == patched(current.default_model, req.default_model),
{
}

} // verus!
