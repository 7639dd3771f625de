//! Laws of the models: each shows all of the value that it stands for.

use vstd::prelude::*;

use crate::config::{ConfigError, HomeVars};
use crate::config_files::{text_result, unit_result};
use crate::open_target::{
    outcome_view, Detail, DetailValue, DetailView, FileUrlTarget, OpenTargetError,
    ResolvedOpenTarget,
};
use crate::path::LocalPath;
use crate::token::TokenFile;
use crate::urls::{
    option_path, option_str, option_text, parsed_view, UrlHost, UrlHostView, UrlParts,
};

verus! {

/// The model of a value that may be missing, or of an error in its place, is that of the value.
pub proof fn law_models_of_options(s: String, t: &str, path: LocalPath, parts: UrlParts)
    ensures
        option_text(Some(s)) == Some(s@),
        option_text(None) is None,
        option_str(Some(t)) == Some(t@),
        option_str(None) is None,
        option_path(Some(path)) == Some(path.bytes@),
        option_path(None) is None,
        text_result(Ok(s)) == Ok::<_, Seq<char>>(s@),
        text_result(Err(s)) == Err::<Seq<char>, _>(s@),
        unit_result(Ok(())) == Ok::<_, Seq<char>>(()),
        unit_result(Err(s)) == Err::<(), _>(s@),
        parsed_view(Ok(parts)) == Ok::<_, Seq<char>>(parts@),
        parsed_view(Err(s)) is Err && parsed_view(Err(s))->Err_0 == s@,
{
}

/// The model of an outcome shows where the target leads, or the code, the message and every detail
/// of the error.
pub proof fn law_model_of_an_outcome(target: ResolvedOpenTarget, error: OpenTargetError, i: int)
    ensures
        outcome_view(Ok(target)) is Ok,
        outcome_view(Ok(target))->Ok_0.navigation_url == target.navigation_url@,
        outcome_view(Ok(target))->Ok_0.kind == target.kind,
        outcome_view(Err(error)) is Err,
        outcome_view(Err(error))->Err_0.code == error.code@,
        outcome_view(Err(error))->Err_0.message == error.message@,
        outcome_view(Err(error))->Err_0.details.len() == error.details@.len(),
        0 <= i < error.details@.len() ==> outcome_view(Err(error))->Err_0.details[i]
            == error.details@[i]@,
{
}

/// The model of a detail shows its key and its value.
pub proof fn law_model_of_a_detail(
    key: &'static str,
    s: String,
    path: LocalPath,
    list: Vec<&'static str>,
    i: int,
)
    ensures
        (Detail { key, value: DetailValue::Text(s) })@ == (key@, DetailView::Text(s@)),
        (Detail { key, value: DetailValue::Path(path) })@ == (key@, DetailView::Path(path.bytes@)),
        (Detail { key, value: DetailValue::List(list) })@.0 == key@,
        (Detail { key, value: DetailValue::List(list) })@.1 is List,
        (Detail { key, value: DetailValue::List(list) })@.1->List_0.len() == list@.len(),
        0 <= i < list@.len() ==> (Detail { key, value: DetailValue::List(list) })@.1->List_0[i]
            == list@[i]@,
{
}

/// The models of errors with files, of the environment, of files and of URLs show every part.
pub proof fn law_models_show_every_part(
    error: ConfigError,
    vars: HomeVars,
    file: FileUrlTarget,
    parts: UrlParts,
    token: TokenFile,
)
    ensures
        error@.kind == error.kind,
        error@.path == option_path(error.path),
        error@.cause == option_text(error.cause),
        vars@.home == option_path(vars.home),
        vars@.user_profile == option_path(vars.user_profile),
        file@.path == file.path.bytes@,
        file@.query == option_text(file.query),
        file@.fragment == option_text(file.fragment),
        parts@.username == parts.username@,
        parts@.password == option_text(parts.password),
        parts@.port == parts.port,
        parts@.host_text == option_text(parts.host_text),
        parts@.query == option_text(parts.query),
        parts@.fragment == option_text(parts.fragment),
        parts@.host is Some == parts.host is Some,
        parts.host matches Some(host) ==> parts@.host == Some(host@) && (match host {
            UrlHost::Domain(domain) => host@ == UrlHostView::Domain(domain@),
            UrlHost::Ipv4(octets) => host@ == UrlHostView::Ipv4(octets@),
            UrlHost::Ipv6(segments) => host@ == UrlHostView::Ipv6(segments@),
        }),
        token matches TokenFile::Text(s) ==> token@ == crate::token::TokenFileView::Text(s@),
        token matches TokenFile::Failed(s) ==> token@ == crate::token::TokenFileView::Failed(s@),
        token is Missing == token@ is Missing,
{
}

} // verus!
