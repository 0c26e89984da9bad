//! The credential-source-type selector: a tagged enumeration that names one
//! of the two built-in credential-source templates. Parsing the selector
//! name is the only validation in the whole system; rendering the selector
//! yields a complete, independently defined template document.

use vstd::prelude::*;
use vstd::string::StringExecFns;
use crate::json::{json_string, str_eq};
use crate::source::{
    format_spec_json, executable_sourced_json, url_sourced_json, headers_json,
    headers_members_json, header_pair_json, credential_source_json, FormatSpec, URLSourced,
    Executable, ExecutableSourced, CredentialSource,
};

verus! {

/// Which built-in credential-source template is in force.
#[derive(Clone, Copy, PartialEq, Eq, Structural, Debug)]
pub enum STSCredentialSource {
    URLSourced,
    ExecutableSourced,
}

/// The recognized name of each selector variant.
pub open spec fn selector_name(sel: STSCredentialSource) -> Seq<char> {
    match sel {
        STSCredentialSource::URLSourced => "URLSourced"@,
        STSCredentialSource::ExecutableSourced => "ExecutableSourced"@,
    }
}

/// Which variant, if any, a selector string names. The two recognized
/// names are matched case-sensitively; everything else is rejected.
pub open spec fn parse_selector(s: Seq<char>) -> Option<STSCredentialSource> {
    if s == "URLSourced"@ {
        Some(STSCredentialSource::URLSourced)
    } else if s == "ExecutableSourced"@ {
        Some(STSCredentialSource::ExecutableSourced)
    } else {
        None
    }
}

/// The fixed URL-sourced template document that the selector renders.
pub open spec fn url_template_json() -> Seq<char> {
    "{\"url\":"@
        + json_string("https://iam.BLAH.com/auth/v1/get-token?audience=gcp-wip.BLAH.com"@)
        + ",\"headers\":"@
        + ("{"@ + json_string("X-IAM"@) + ":"@ + json_string("1"@) + "}"@)
        + ",\"format\":"@ + format_spec_json("json"@, "access_token"@) + "}"@
}

/// The fixed executable-sourced template document that the selector renders.
pub open spec fn executable_template_json() -> Seq<char> {
    executable_sourced_json(
        "/opt/bin/blah_blah_blah.sh https://blah.com/auth/v1/ext/get-token?audience=gcp-wip.BLAH.com"@,
        5000,
    )
}

/// The template document rendered for each selector variant.
pub open spec fn selector_json(sel: STSCredentialSource) -> Seq<char> {
    match sel {
        STSCredentialSource::URLSourced => url_template_json(),
        STSCredentialSource::ExecutableSourced => executable_template_json(),
    }
}

/// The built-in URL-sourced credential source, field for field.
pub open spec fn is_default_url_sourced(u: URLSourced) -> bool {
    &&& u.url@ == "https://iam.BLAH.com/auth/v1/get-token?audience=gcp-wip.BLAH.com"@
    &&& u.headers@.len() == 1
    &&& u.headers@[0].0@ == "X-IAM"@
    &&& u.headers@[0].1@ == "1"@
    &&& u.format_spec.format_type@ == "json"@
    &&& u.format_spec.subject_token_field_name@ == "access_token"@
}

/// The built-in executable-sourced credential source, field for field.
pub open spec fn is_default_executable_sourced(e: ExecutableSourced) -> bool {
    &&& e.executable.command@
        == "/opt/bin/blah_blah_blah.sh https://blah.com/auth/v1/ext/get-token?audience=gcp-wip.BLAH.com"@
    &&& e.executable.timeout_millis == 5000
}

/// Constructs the built-in URL-sourced credential-source template.
pub fn default_url_sourced() -> (u: URLSourced)
    ensures
        is_default_url_sourced(u),
{
    let mut headers: Vec<(String, String)> = Vec::new();
    headers.push((String::from_str("X-IAM"), String::from_str("1")));
    URLSourced {
        url: String::from_str("https://iam.BLAH.com/auth/v1/get-token?audience=gcp-wip.BLAH.com"),
        headers,
        format_spec: FormatSpec {
            format_type: String::from_str("json"),
            subject_token_field_name: String::from_str("access_token"),
        },
    }
}

/// Constructs the built-in executable-sourced credential-source template.
pub fn default_executable_sourced() -> (e: ExecutableSourced)
    ensures
        is_default_executable_sourced(e),
{
    ExecutableSourced {
        executable: Executable {
            command: String::from_str(
                "/opt/bin/blah_blah_blah.sh https://blah.com/auth/v1/ext/get-token?audience=gcp-wip.BLAH.com",
            ),
            timeout_millis: 5000,
        },
    }
}

/// The built-in URL-sourced value renders exactly the URL-sourced template.
pub proof fn lemma_default_url_sourced_renders_template(u: URLSourced)
    requires
        is_default_url_sourced(u),
    ensures
        url_sourced_json(u) == url_template_json(),
{
    assert(headers_members_json(u.headers@) == header_pair_json(u.headers@[0]));
    assert(headers_json(u.headers@) == "{"@ + json_string("X-IAM"@) + ":"@ + json_string("1"@)
        + "}"@);
}

impl STSCredentialSource {
    /// Parses a selector name. Succeeds exactly on the two recognized
    /// names; any other input yields the invalid-input error message.
    pub fn from_str(s: &str) -> (r: Result<STSCredentialSource, String>)
        ensures
            r is Ok <==> parse_selector(s@) is Some,
            (match r {
                Ok(sel) => parse_selector(s@) == Some(sel),
                Err(e) => e@ == "Invalid input: "@ + s@,
            }),
    {
        if str_eq(s, "URLSourced") {
            Ok(STSCredentialSource::URLSourced)
        } else if str_eq(s, "ExecutableSourced") {
            Ok(STSCredentialSource::ExecutableSourced)
        } else {
            let mut e = String::from_str("Invalid input: ");
            e.append(s);
            Err(e)
        }
    }

    /// The recognized name of this variant.
    pub fn name(&self) -> (r: String)
        ensures
            r@ == selector_name(*self),
    {
        match self {
            STSCredentialSource::URLSourced => String::from_str("URLSourced"),
            STSCredentialSource::ExecutableSourced => String::from_str("ExecutableSourced"),
        }
    }

    /// Renders the complete built-in template document for this variant —
    /// a constant, defined independently of any credential-source value
    /// carried elsewhere in a document.
    pub fn serialize(&self) -> (r: String)
        ensures
            r@ == selector_json(*self),
    {
        match self {
            STSCredentialSource::URLSourced => {
                let template = default_url_sourced();
                let r = template.to_json();
                proof {
                    lemma_default_url_sourced_renders_template(template);
                }
                r
            },
            STSCredentialSource::ExecutableSourced => {
                let template = default_executable_sourced();
                template.to_json()
            },
        }
    }
}

/// The selector's independent rendering coincides, character for character,
/// with rendering the corresponding built-in credential-source value: the
/// URL-sourced selector yields the URL-shaped object (`url`, `headers`,
/// `format` members), the executable-sourced selector the executable-shaped
/// one (a single `executable` member).
pub proof fn lemma_selector_renders_builtin_source(sel: STSCredentialSource, cs: CredentialSource)
    requires
        (match sel {
            STSCredentialSource::URLSourced => cs matches CredentialSource::URLSourced(u)
                && is_default_url_sourced(u),
            STSCredentialSource::ExecutableSourced => cs matches CredentialSource::ExecutableSourced(
                e,
            ) && is_default_executable_sourced(e),
        }),
    ensures
        credential_source_json(cs) == selector_json(sel),
{
    match sel {
        STSCredentialSource::URLSourced => {
            if let CredentialSource::URLSourced(u) = cs {
                lemma_default_url_sourced_renders_template(u);
            }
        },
        STSCredentialSource::ExecutableSourced => {
        },
    }
}

/// Parsing a selector's own name gives the selector back, so re-serializing
/// what was parsed yields the very same template document.
pub proof fn lemma_selector_round_trip(sel: STSCredentialSource)
    ensures
        parse_selector(selector_name(sel)) matches Some(back) && back == sel
            && selector_json(back) == selector_json(sel),
{
    reveal_strlit("URLSourced");
    reveal_strlit("ExecutableSourced");
    match sel {
        STSCredentialSource::URLSourced => {
        },
        STSCredentialSource::ExecutableSourced => {
            assert("ExecutableSourced"@.len() != "URLSourced"@.len());
        },
    }
}

} // verus!
