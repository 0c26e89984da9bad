//! The two subject-token acquisition strategies and their fixed-shape JSON
//! renderings: URL-sourced (fetch from a URL with headers, extract per a
//! format description) and executable-sourced (run a local command).

use vstd::prelude::*;
use vstd::string::StringExecFns;
use crate::json::{json_string, dec_int_str, append_json_string, append_i32_dec};

verus! {

/// How to extract the subject token from a credential-source response.
pub struct FormatSpec {
    pub format_type: String,
    pub subject_token_field_name: String,
}

/// Fetch the subject token over HTTP against `url` with `headers`, then
/// extract it per `format_spec`. Header pairs render in their stored order.
pub struct URLSourced {
    pub url: String,
    pub headers: Vec<(String, String)>,
    pub format_spec: FormatSpec,
}

/// A local executable that prints the subject token within the timeout.
pub struct Executable {
    pub command: String,
    pub timeout_millis: i32,
}

/// Obtain the subject token by running `executable`.
pub struct ExecutableSourced {
    pub executable: Executable,
}

/// Exactly one acquisition strategy is active at any time.
pub enum CredentialSource {
    URLSourced(URLSourced),
    ExecutableSourced(ExecutableSourced),
}

pub open spec fn format_spec_json(format_type: Seq<char>, field_name: Seq<char>) -> Seq<char> {
    "{\"type\":"@ + json_string(format_type)
        + ",\"subject_token_field_name\":"@ + json_string(field_name) + "}"@
}

pub open spec fn header_pair_json(p: (String, String)) -> Seq<char> {
    json_string(p.0@) + ":"@ + json_string(p.1@)
}

pub open spec fn headers_members_json(hs: Seq<(String, String)>) -> Seq<char>
    decreases hs.len(),
{
    if hs.len() == 0 {
        Seq::empty()
    } else if hs.len() == 1 {
        header_pair_json(hs[0])
    } else {
        header_pair_json(hs[0]) + ","@ + headers_members_json(hs.skip(1))
    }
}

pub open spec fn headers_json(hs: Seq<(String, String)>) -> Seq<char> {
    "{"@ + headers_members_json(hs) + "}"@
}

pub open spec fn url_sourced_json(u: URLSourced) -> Seq<char> {
    "{\"url\":"@ + json_string(u.url@)
        + ",\"headers\":"@ + headers_json(u.headers@)
        + ",\"format\":"@
        + format_spec_json(u.format_spec.format_type@, u.format_spec.subject_token_field_name@)
        + "}"@
}

pub open spec fn executable_json(command: Seq<char>, timeout_millis: int) -> Seq<char> {
    "{\"command\":"@ + json_string(command)
        + ",\"timeout_millis\":"@ + dec_int_str(timeout_millis) + "}"@
}

pub open spec fn executable_sourced_json(command: Seq<char>, timeout_millis: int) -> Seq<char> {
    "{\"executable\":"@ + executable_json(command, timeout_millis) + "}"@
}

pub open spec fn credential_source_json(cs: CredentialSource) -> Seq<char> {
    match cs {
        CredentialSource::URLSourced(u) => url_sourced_json(u),
        CredentialSource::ExecutableSourced(e) => executable_sourced_json(
            e.executable.command@,
            e.executable.timeout_millis as int,
        ),
    }
}

/// Rendering header members processes the last pair after the rest.
proof fn lemma_headers_members_snoc(hs: Seq<(String, String)>)
    requires
        hs.len() >= 2,
    ensures
        headers_members_json(hs) == headers_members_json(hs.drop_last()) + ","@
            + header_pair_json(hs.last()),
    decreases hs.len(),
{
    if hs.len() == 2 {
        reveal_with_fuel(headers_members_json, 2);
        assert(hs.skip(1).len() == 1);
        assert(hs.skip(1)[0] == hs.last());
        assert(hs.drop_last().len() == 1);
        assert(hs.drop_last()[0] == hs[0]);
        assert(headers_members_json(hs) =~= headers_members_json(hs.drop_last()) + ","@
            + header_pair_json(hs.last()));
    } else {
        lemma_headers_members_snoc(hs.skip(1));
        assert(hs.skip(1).drop_last() =~= hs.drop_last().skip(1));
        assert(hs.skip(1).last() == hs.last());
        assert(hs.drop_last()[0] == hs[0]);
        assert(hs.drop_last().len() >= 2);
        assert(headers_members_json(hs) =~= headers_members_json(hs.drop_last()) + ","@
            + header_pair_json(hs.last()));
    }
}

fn append_headers(out: &mut String, headers: &Vec<(String, String)>)
    ensures
        final(out)@ == old(out)@ + headers_json(headers@),
{
    out.append("{");
    let n = headers.len();
    let mut i: usize = 0;
    while i < n
        invariant
            n == headers@.len(),
            i <= n,
            out@ == old(out)@ + "{"@ + headers_members_json(headers@.take(i as int)),
        decreases n - i,
    {
        if i > 0 {
            out.append(",");
        }
        append_json_string(out, headers[i].0.as_str());
        out.append(":");
        append_json_string(out, headers[i].1.as_str());
        proof {
            let taken = headers@.take(i as int + 1);
            assert(taken.drop_last() =~= headers@.take(i as int));
            assert(taken.last() == headers@[i as int]);
            if i == 0 {
                assert(headers_members_json(taken) == header_pair_json(headers@[0]));
            } else {
                lemma_headers_members_snoc(taken);
            }
            assert(out@ =~= old(out)@ + "{"@ + headers_members_json(taken));
        }
        i = i + 1;
    }
    out.append("}");
    proof {
        assert(headers@.take(n as int) =~= headers@);
        assert(out@ =~= old(out)@ + headers_json(headers@));
    }
}

impl FormatSpec {
    pub(crate) fn append_json(&self, out: &mut String)
        ensures
            final(out)@ == old(out)@ + format_spec_json(
                self.format_type@,
                self.subject_token_field_name@,
            ),
    {
        out.append("{\"type\":");
        append_json_string(out, self.format_type.as_str());
        out.append(",\"subject_token_field_name\":");
        append_json_string(out, self.subject_token_field_name.as_str());
        out.append("}");
        assert(out@ =~= old(out)@ + format_spec_json(
            self.format_type@,
            self.subject_token_field_name@,
        ));
    }

    /// The JSON object with the `type` and `subject_token_field_name` members.
    pub fn to_json(&self) -> (r: String)
        ensures
            r@ == format_spec_json(self.format_type@, self.subject_token_field_name@),
    {
        let mut out = String::new();
        self.append_json(&mut out);
        out
    }
}

impl URLSourced {
    pub(crate) fn append_json(&self, out: &mut String)
        ensures
            final(out)@ == old(out)@ + url_sourced_json(*self),
    {
        out.append("{\"url\":");
        append_json_string(out, self.url.as_str());
        out.append(",\"headers\":");
        append_headers(out, &self.headers);
        out.append(",\"format\":");
        self.format_spec.append_json(out);
        out.append("}");
        assert(out@ =~= old(out)@ + url_sourced_json(*self));
    }

    /// The JSON object with the `url`, `headers` and `format` members.
    pub fn to_json(&self) -> (r: String)
        ensures
            r@ == url_sourced_json(*self),
    {
        let mut out = String::new();
        self.append_json(&mut out);
        out
    }
}

impl Executable {
    pub(crate) fn append_json(&self, out: &mut String)
        ensures
            final(out)@ == old(out)@ + executable_json(
                self.command@,
                self.timeout_millis as int,
            ),
    {
        out.append("{\"command\":");
        append_json_string(out, self.command.as_str());
        out.append(",\"timeout_millis\":");
        append_i32_dec(out, self.timeout_millis);
        out.append("}");
        assert(out@ =~= old(out)@ + executable_json(self.command@, self.timeout_millis as int));
    }

    /// The JSON object with the `command` and `timeout_millis` members.
    pub fn to_json(&self) -> (r: String)
        ensures
            r@ == executable_json(self.command@, self.timeout_millis as int),
    {
        let mut out = String::new();
        self.append_json(&mut out);
        out
    }
}

impl ExecutableSourced {
    pub(crate) fn append_json(&self, out: &mut String)
        ensures
            final(out)@ == old(out)@ + executable_sourced_json(
                self.executable.command@,
                self.executable.timeout_millis as int,
            ),
    {
        out.append("{\"executable\":");
        self.executable.append_json(out);
        out.append("}");
        assert(out@ =~= old(out)@ + executable_sourced_json(
            self.executable.command@,
            self.executable.timeout_millis as int,
        ));
    }

    /// The JSON object with the single `executable` member.
    pub fn to_json(&self) -> (r: String)
        ensures
            r@ == executable_sourced_json(
                self.executable.command@,
                self.executable.timeout_millis as int,
            ),
    {
        let mut out = String::new();
        self.append_json(&mut out);
        out
    }
}

impl CredentialSource {
    pub(crate) fn append_json(&self, out: &mut String)
        ensures
            final(out)@ == old(out)@ + credential_source_json(*self),
    {
        match self {
            CredentialSource::URLSourced(u) => u.append_json(out),
            CredentialSource::ExecutableSourced(e) => e.append_json(out),
        }
    }

    /// The JSON object of whichever strategy is active; the two shapes share
    /// no member, so they are distinguishable by their top-level keys alone.
    pub fn to_json(&self) -> (r: String)
        ensures
            r@ == credential_source_json(*self),
    {
        let mut out = String::new();
        self.append_json(&mut out);
        out
    }
}

} // verus!
