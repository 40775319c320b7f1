//! Pieces shared by the downloader command lines.

use vstd::prelude::*;
use crate::text::{texts, push_arg, push_all_args, chars_of};
use crate::utils::{yt_dlp_extra, yt_dlp_extra_args};

verus! {

broadcast use vstd::string::group_string_axioms;

/// The extractor argument that sends TikTok requests to a fixed API host.
pub const TIKTOK_API_HOST: &'static str = "tiktok:api_hostname=api16-normal-c-useast1a.tiktokv.com";

/// `a` when `cond` holds, otherwise nothing.
pub open spec fn args_if(cond: bool, a: Seq<Seq<char>>) -> Seq<Seq<char>> {
    if cond {
        a
    } else {
        Seq::empty()
    }
}

/// `--cookies <file>` when a cookie file is given.
pub open spec fn cookie_args(cookie_file: Seq<char>) -> Seq<Seq<char>> {
    args_if(cookie_file.len() > 0, seq!["--cookies"@, cookie_file])
}

/// `--proxy <proxy>` when a proxy is given.
pub open spec fn proxy_args(proxy: Option<String>) -> Seq<Seq<char>> {
    match proxy {
        Some(p) => seq!["--proxy"@, p@],
        None => Seq::empty(),
    }
}

/// `--impersonate chrome` when impersonation is available.
pub open spec fn impersonate_args(impersonate: bool) -> Seq<Seq<char>> {
    args_if(impersonate, seq!["--impersonate"@, "chrome"@])
}

/// Appends the common extra arguments.
pub fn push_extra(v: &mut Vec<String>)
    ensures
        texts(final(v)@) == texts(old(v)@) + yt_dlp_extra_args(),
{
    let extra = yt_dlp_extra();
    push_all_args(v, &extra);
}

/// Appends `--cookies <file>` when the file name is not empty.
pub fn push_cookie(v: &mut Vec<String>, cookie_file: &str)
    ensures
        texts(final(v)@) == texts(old(v)@) + cookie_args(cookie_file@),
{
    if chars_of(cookie_file).len() > 0 {
        push_arg(v, "--cookies");
        push_arg(v, cookie_file);
        assert(texts(v@) =~= texts(old(v)@) + cookie_args(cookie_file@));
    } else {
        assert(texts(v@) =~= texts(old(v)@) + cookie_args(cookie_file@));
    }
}

/// Appends `--proxy <proxy>` when a proxy is given.
pub fn push_proxy(v: &mut Vec<String>, proxy: &Option<String>)
    ensures
        texts(final(v)@) == texts(old(v)@) + proxy_args(*proxy),
{
    match proxy {
        Some(p) => {
            push_arg(v, "--proxy");
            push_arg(v, p.as_str());
            assert(texts(v@) =~= texts(old(v)@) + proxy_args(*proxy));
        },
        None => {
            assert(texts(v@) =~= texts(old(v)@) + proxy_args(*proxy));
        },
    }
}

/// Appends `--impersonate chrome` when impersonation is available.
pub fn push_impersonate(v: &mut Vec<String>, impersonate: bool)
    ensures
        texts(final(v)@) == texts(old(v)@) + impersonate_args(impersonate),
{
    if impersonate {
        push_arg(v, "--impersonate");
        push_arg(v, "chrome");
    }
    assert(texts(v@) =~= texts(old(v)@) + impersonate_args(impersonate));
}

} // verus!
