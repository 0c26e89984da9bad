//! The root external-account document: assembly from an identity and a
//! selector, and rendering to its JSON text.
//!
//! `credential_source` and `credential_source_type` are set and rendered
//! independently; nothing ties them to the same strategy, and the two can
//! disagree about which strategy is in force. The builder deliberately keeps
//! the fixed executable-sourced example as the embedded source whatever the
//! selector says.

use vstd::prelude::*;
use vstd::string::StringExecFns;
use crate::json::{json_string, lemma_json_escape_plain, is_plain_char, append_json_string};
use crate::source::{credential_source_json, executable_sourced_json, CredentialSource};
use crate::selector::{
    selector_json, parse_selector, default_url_sourced, default_executable_sourced,
    is_default_url_sourced, is_default_executable_sourced, STSCredentialSource,
};

verus! {

/// The root document of the external-account credential configuration.
pub struct ExternalAccountKey {
    pub key_type: String,
    pub audience: String,
    pub subject_token_type: String,
    pub token_uri: String,
    pub service_account_impersonation_url: String,
    pub credential_source: CredentialSource,
    pub credential_source_type: STSCredentialSource,
}

/// The document's JSON text: the seven members in fixed order, each string
/// member a JSON string literal, the credential source and the selector
/// rendered by their own rules.
pub open spec fn external_account_key_json(k: ExternalAccountKey) -> Seq<char> {
    "{\"type\":"@ + json_string(k.key_type@)
        + ",\"audience\":"@ + json_string(k.audience@)
        + ",\"subject_token_type\":"@ + json_string(k.subject_token_type@)
        + ",\"token_uri\":"@ + json_string(k.token_uri@)
        + ",\"service_account_impersonation_url\":"@
        + json_string(k.service_account_impersonation_url@)
        + ",\"credential_source\":"@ + credential_source_json(k.credential_source)
        + ",\"credential_source_type\":"@ + selector_json(k.credential_source_type)
        + "}"@
}

impl ExternalAccountKey {
    /// Renders the whole document as one line of JSON.
    pub fn to_json(&self) -> (r: String)
        ensures
            r@ == external_account_key_json(*self),
    {
        let mut out = String::new();
        out.append("{\"type\":");
        append_json_string(&mut out, self.key_type.as_str());
        out.append(",\"audience\":");
        append_json_string(&mut out, self.audience.as_str());
        out.append(",\"subject_token_type\":");
        append_json_string(&mut out, self.subject_token_type.as_str());
        out.append(",\"token_uri\":");
        append_json_string(&mut out, self.token_uri.as_str());
        out.append(",\"service_account_impersonation_url\":");
        append_json_string(&mut out, self.service_account_impersonation_url.as_str());
        out.append(",\"credential_source\":");
        self.credential_source.append_json(&mut out);
        out.append(",\"credential_source_type\":");
        let sel = self.credential_source_type.serialize();
        out.append(sel.as_str());
        out.append("}");
        assert(out@ =~= external_account_key_json(*self));
        out
    }
}

/// Field-for-field description of the fixed default document: constant
/// pool metadata, the URL-sourced template as the embedded source, no
/// impersonation target yet, and the URL-sourced selector.
pub open spec fn is_default_key(k: ExternalAccountKey) -> bool {
    &&& k.key_type@ == "external_account"@
    &&& k.audience@
        == "//iam.googleapis.com/projects/1234567890/location/global/workloadIdentityPools/BLAH-pool/providers/BLAH-provider"@
    &&& k.subject_token_type@ == "urn:ietf:params:oath:token-type:jwt"@
    &&& k.token_uri@ == "https://sts.googleapis.com/v1/token"@
    &&& k.service_account_impersonation_url@ == Seq::<char>::empty()
    &&& k.credential_source matches CredentialSource::URLSourced(u) && is_default_url_sourced(u)
    &&& k.credential_source_type == STSCredentialSource::URLSourced
}

/// Constructs the fixed default document.
pub fn default_sts_external_account_key() -> (k: ExternalAccountKey)
    ensures
        is_default_key(k),
{
    ExternalAccountKey {
        key_type: String::from_str("external_account"),
        audience: String::from_str(
            "//iam.googleapis.com/projects/1234567890/location/global/workloadIdentityPools/BLAH-pool/providers/BLAH-provider",
        ),
        subject_token_type: String::from_str("urn:ietf:params:oath:token-type:jwt"),
        token_uri: String::from_str("https://sts.googleapis.com/v1/token"),
        service_account_impersonation_url: String::new(),
        credential_source: CredentialSource::URLSourced(default_url_sourced()),
        credential_source_type: STSCredentialSource::URLSourced,
    }
}

impl Default for ExternalAccountKey {
    fn default() -> (k: Self)
        ensures
            is_default_key(k),
    {
        default_sts_external_account_key()
    }
}

/// The impersonation-target URL: the fixed template with the supplied
/// identifier substituted verbatim.
pub open spec fn impersonation_url(id: Seq<char>) -> Seq<char> {
    "https://iamcredentials.googleapis.com/v1/projects/-/serviceAccounts/"@ + id
        + ":generateAccessToken"@
}

/// The selector string the builder parses: the supplied one, or the
/// URL-sourced name when none was supplied.
pub open spec fn selector_or_default(selector: Option<&str>) -> Seq<char> {
    match selector {
        Some(s) => s@,
        None => "URLSourced"@,
    }
}

/// Field-for-field description of a successfully built document for
/// identity `id`: the default metadata, the impersonation target for `id`,
/// the executable-sourced example as the embedded source, and the parsed
/// selector.
pub open spec fn is_built_key(k: ExternalAccountKey, id: Seq<char>) -> bool {
    &&& k.key_type@ == "external_account"@
    &&& k.audience@
        == "//iam.googleapis.com/projects/1234567890/location/global/workloadIdentityPools/BLAH-pool/providers/BLAH-provider"@
    &&& k.subject_token_type@ == "urn:ietf:params:oath:token-type:jwt"@
    &&& k.token_uri@ == "https://sts.googleapis.com/v1/token"@
    &&& k.service_account_impersonation_url@ == impersonation_url(id)
    &&& k.credential_source matches CredentialSource::ExecutableSourced(e)
        && is_default_executable_sourced(e)
}

/// Builds the document for a service-account identity and an optional
/// selector string. Fails exactly when the selector string names neither
/// recognized variant; the identity is substituted without validation.
pub fn build_external_account_key(service_account: &str, selector: Option<&str>) -> (r: Result<
    ExternalAccountKey,
    String,
>)
    ensures
        r is Ok <==> parse_selector(selector_or_default(selector)) is Some,
        (match r {
            Ok(k) => parse_selector(selector_or_default(selector)) == Some(
                k.credential_source_type,
            ) && is_built_key(k, service_account@),
            Err(e) => e@ == "Invalid input: "@ + selector_or_default(selector),
        }),
{
    let sel_str: &str = match selector {
        Some(s) => s,
        None => "URLSourced",
    };
    let sel = match STSCredentialSource::from_str(sel_str) {
        Ok(v) => v,
        Err(e) => {
            return Err(e);
        },
    };
    let mut url = String::from_str(
        "https://iamcredentials.googleapis.com/v1/projects/-/serviceAccounts/",
    );
    url.append(service_account);
    url.append(":generateAccessToken");
    assert(url@ =~= impersonation_url(service_account@));
    let mut k = default_sts_external_account_key();
    k.service_account_impersonation_url = url;
    k.credential_source = CredentialSource::ExecutableSourced(default_executable_sourced());
    k.credential_source_type = sel;
    Ok(k)
}

/// The complete document text emitted for identity `id` and selector `sel`.
pub open spec fn built_document_json(id: Seq<char>, sel: STSCredentialSource) -> Seq<char> {
    "{\"type\":"@ + json_string("external_account"@)
        + ",\"audience\":"@ + json_string(
        "//iam.googleapis.com/projects/1234567890/location/global/workloadIdentityPools/BLAH-pool/providers/BLAH-provider"@,
    )
        + ",\"subject_token_type\":"@ + json_string("urn:ietf:params:oath:token-type:jwt"@)
        + ",\"token_uri\":"@ + json_string("https://sts.googleapis.com/v1/token"@)
        + ",\"service_account_impersonation_url\":"@ + json_string(impersonation_url(id))
        + ",\"credential_source\":"@ + executable_sourced_json(
        "/opt/bin/blah_blah_blah.sh https://blah.com/auth/v1/ext/get-token?audience=gcp-wip.BLAH.com"@,
        5000,
    )
        + ",\"credential_source_type\":"@ + selector_json(sel)
        + "}"@
}

/// A built document renders exactly the text that `built_document_json`
/// gives for its identity and selector.
pub proof fn lemma_built_key_document(k: ExternalAccountKey, id: Seq<char>)
    requires
        is_built_key(k, id),
    ensures
        external_account_key_json(k) == built_document_json(id, k.credential_source_type),
{
}

/// One call that does what the whole system is for: build the document and
/// render it. Succeeds exactly when the selector is recognized, and then
/// the produced text is pinned down to the character.
pub fn external_account_document(service_account: &str, selector: Option<&str>) -> (r: Result<
    String,
    String,
>)
    ensures
        r is Ok <==> parse_selector(selector_or_default(selector)) is Some,
        (match r {
            Ok(doc) => parse_selector(selector_or_default(selector)) matches Some(sel)
                && doc@ == built_document_json(service_account@, sel),
            Err(e) => e@ == "Invalid input: "@ + selector_or_default(selector),
        }),
{
    match build_external_account_key(service_account, selector) {
        Ok(k) => {
            proof {
                lemma_built_key_document(k, service_account@);
            }
            Ok(k.to_json())
        },
        Err(e) => Err(e),
    }
}

/// The emitted document always declares the external-account type: its
/// first characters are exactly the member `"type":"external_account"`,
/// whatever the identity and the selector.
pub proof fn lemma_document_declares_external_account(id: Seq<char>, sel: STSCredentialSource)
    ensures
        built_document_json(id, sel).len() >= 26,
        built_document_json(id, sel).subrange(0, 26) == "{\"type\":\"external_account\""@,
{
    reveal_strlit("{\"type\":");
    reveal_strlit("external_account");
    reveal_strlit("\"");
    reveal_strlit("{\"type\":\"external_account\"");
    assert forall|i: int| 0 <= i < "external_account"@.len() implies is_plain_char(
        #[trigger] "external_account"@[i],
    ) by {
    }
    lemma_json_escape_plain("external_account"@);
    let prefix = "{\"type\":"@ + json_string("external_account"@);
    assert(prefix.len() == 26);
    assert(prefix =~= "{\"type\":\"external_account\""@);
    assert(built_document_json(id, sel).subrange(0, 26) =~= prefix);
}

} // verus!
