//! One-click login to a project's WordPress admin.
//!
//! The project carries a must-use plugin that accepts a one-time token: the
//! panel stores a random token as a WordPress transient for 60 seconds and
//! opens the site with `?panel_autologin={token}`; the plugin checks it,
//! deletes it and logs the user in.

use vstd::prelude::*;

use crate::text::dec_seq;

verus! {

broadcast use vstd::string::group_string_axioms;

/// The WP-CLI arguments that store `token` for 60 seconds, naming the user to
/// log in (`0`, the first administrator, when none is given).
pub open spec fn transient_args_seq(token: Seq<char>, user_id: Option<u64>) -> Seq<Seq<char>> {
    seq![
        "transient"@,
        "set"@,
        "panel_autologin_"@ + token,
        dec_seq(
            match user_id {
                Some(u) => u as nat,
                None => 0,
            },
        ),
        "60"@,
    ]
}

/// What opening the admin takes: with one-click login, the transient to store
/// and the URL carrying the token; otherwise just `{base}/wp-admin/`.
pub fn admin_login(base: &str, one_click: bool, token: &str, user_id: Option<u64>) -> (r: (Option<Vec<String>>, String))
    ensures
        one_click ==> (r.0 matches Some(a) && a@.map_values(|s: String| s@) == transient_args_seq(token@, user_id)
            && r.1@ == base@ + "/?panel_autologin="@ + token@),
        !one_click ==> (r.0 is None && r.1@ == base@ + "/wp-admin/"@),
{
    if one_click {
        let uid: u64 = match user_id {
            Some(u) => u,
            None => 0,
        };
        let args = vec![
            String::from_str("transient"),
            String::from_str("set"),
            String::from_str("panel_autologin_").concat(token),
            crate::text::dec_string(uid),
            String::from_str("60"),
        ];
        assert(args@.map_values(|s: String| s@) =~= transient_args_seq(token@, user_id));
        (Some(args), String::from_str(base).concat("/?panel_autologin=").concat(token))
    } else {
        (None, String::from_str(base).concat("/wp-admin/"))
    }
}

/// `admin_login` with a fresh random token (32 lowercase hex digits); `None`
/// when a token is needed and the system's random source fails.
pub fn new_admin_login(base: &str, one_click: bool, user_id: Option<u64>) -> (res: Option<(Option<Vec<String>>, String)>)
    ensures
        one_click ==> (res matches Some(r) ==> exists|token: Seq<char>|
            #![trigger token.len()]
            token.len() == 32 && (forall|i: int| 0 <= i < 32 ==> crate::ids::is_lower_hex(#[trigger] token[i]))
                && (r.0 matches Some(a) && a@.map_values(|s: String| s@) == transient_args_seq(
                token,
                user_id,
            ) && r.1@ == base@ + "/?panel_autologin="@ + token)),
        !one_click ==> (res matches Some(r) && r.0 is None && r.1@ == base@ + "/wp-admin/"@),
{
    if one_click {
        let token = match crate::ids::new_token() {
            Some(t) => t,
            None => {
                return None;
            },
        };
        let r = admin_login(base, true, token.as_str(), user_id);
        assert(token@.len() == 32);
        Some(r)
    } else {
        Some(admin_login(base, false, "", user_id))
    }
}

} // verus!
