//! The shield: redaction of sensitive text, the destination allow-list,
//! the workspace boundary for exports, and a one-way kill switch.
//!
//! The kill switch is a field of the shield; it is set through `&mut self`,
//! so callers that share one shield across threads hold it behind a lock,
//! and readers see either the state before the switch or the one after.

use vstd::prelude::*;
use crate::pattern::{CompiledPattern, compile, regex_accepts, regex_replace_all, replace_all};
use crate::text::same_text;

verus! {

/// What `redact` returns once the kill switch is set.
pub const KILL_SWITCH_SENTINEL: &'static str = "[SHIELD KILL SWITCH ACTIVE]";

/// Whether `path` lies under `base`, component by component.
pub uninterp spec fn path_starts_with(path: Seq<char>, base: Seq<char>) -> bool;

/// Relies on std's `Path::starts_with`, which compares whole components.
#[verifier::external_body]
fn path_under(path: &str, base: &str) -> (r: bool)
    ensures
        r == path_starts_with(path@, base@),
{
    std::path::Path::new(path).starts_with(base)
}

/// The shield's settings, fixed when it is built.
pub struct ShieldConfig {
    /// Destinations requests may go to; matched exactly.
    pub allowed_domains: Vec<String>,
    /// Regular expressions for sensitive text, applied in order.
    pub pii_patterns: Vec<String>,
    pub redacted_placeholder: String,
}

/// Why the shield refused something.
#[derive(Debug)]
pub enum ShieldError {
    /// The kill switch is set.
    KillSwitchActive,
    /// The domain is not in the allow-list.
    DomainNotAllowed(String),
    /// The path lies outside the workspace.
    OutsideWorkspace(String),
    /// A configured pattern does not compile.
    InvalidPattern(String),
}

pub struct Shield {
    config: ShieldConfig,
    patterns: Vec<CompiledPattern>,
    kill_switch: bool,
}

pub open spec fn sources(ps: Seq<String>) -> Seq<Seq<char>> {
    ps.map_values(|p: String| p@)
}

/// `text` with every pattern's matches replaced by `placeholder`, the
/// patterns taken in order, each applied to what the ones before left.
pub open spec fn redaction(patterns: Seq<Seq<char>>, text: Seq<char>, placeholder: Seq<char>) -> Seq<char>
    decreases patterns.len(),
{
    if patterns.len() == 0 {
        text
    } else {
        regex_replace_all(patterns.last(), redaction(patterns.drop_last(), text, placeholder), placeholder)
    }
}

pub open spec fn domain_listed(domains: Seq<String>, domain: Seq<char>) -> bool {
    exists|i: int| 0 <= i < domains.len() && domains[i]@ == domain
}

/// Index of the first pattern `Regex::new` refuses, if any.
pub open spec fn first_refused(ps: Seq<String>, i: int) -> bool {
    0 <= i < ps.len() && !regex_accepts(ps[i]@) && forall|j: int| 0 <= j < i ==> regex_accepts(ps[j]@)
}

impl Shield {
    pub closed spec fn config(&self) -> ShieldConfig {
        self.config
    }

    /// Whether the kill switch is set.
    pub closed spec fn killed(&self) -> bool {
        self.kill_switch
    }

    /// The compiled patterns are those of the configuration, in order.
    pub closed spec fn wf(&self) -> bool {
        &&& self.patterns@.len() == self.config.pii_patterns@.len()
        &&& forall|i: int| 0 <= i < self.patterns@.len() ==> #[trigger] self.patterns@[i].view()
            == self.config.pii_patterns@[i]@
    }

    /// What `redact` gives for `text`.
    pub open spec fn redact_result(&self, text: Seq<char>) -> Seq<char> {
        if self.killed() {
            KILL_SWITCH_SENTINEL@
        } else {
            redaction(sources(self.config().pii_patterns@), text, self.config().redacted_placeholder@)
        }
    }

    /// Whether `validate_request` lets a request to `domain` through.
    pub open spec fn admits(&self, domain: Seq<char>) -> bool {
        !self.killed() && domain_listed(self.config().allowed_domains@, domain)
    }

    /// Compiles the configured patterns; fails on the first one that does
    /// not compile. The kill switch starts unset.
    pub fn new(config: ShieldConfig) -> (r: Result<Shield, ShieldError>)
        ensures
            r is Ok <==> forall|i: int| 0 <= i < config.pii_patterns@.len() ==> regex_accepts(
                #[trigger] config.pii_patterns@[i]@,
            ),
            r matches Ok(s) ==> s.wf() && s.config() == config && !s.killed(),
            r matches Err(e) ==> exists|i: int| first_refused(config.pii_patterns@, i) && (e matches ShieldError::InvalidPattern(p) && p@ == config.pii_patterns@[i]@),
    {
        let mut patterns: Vec<CompiledPattern> = Vec::new();
        let mut i: usize = 0;
        while i < config.pii_patterns.len()
            invariant
                i <= config.pii_patterns@.len(),
                patterns@.len() == i,
                forall|j: int| 0 <= j < i ==> #[trigger] patterns@[j].view() == config.pii_patterns@[j]@,
                forall|j: int| 0 <= j < i ==> regex_accepts(#[trigger] config.pii_patterns@[j]@),
            decreases config.pii_patterns@.len() - i,
        {
            match compile(config.pii_patterns[i].as_str()) {
                Ok(c) => patterns.push(c),
                Err(_) => {
                    assert(first_refused(config.pii_patterns@, i as int));
                    return Err(ShieldError::InvalidPattern(config.pii_patterns[i].clone()));
                },
            }
            i = i + 1;
        }
        Ok(Shield { config, patterns, kill_switch: false })
    }

    /// Replaces every match of every pattern, in order, by the placeholder;
    /// once the kill switch is set, returns the sentinel instead.
    pub fn redact(&self, input: &str) -> (r: String)
        requires
            self.wf(),
        ensures
            r@ == self.redact_result(input@),
    {
        if self.kill_switch {
            return String::from_str(KILL_SWITCH_SENTINEL);
        }
        let mut output = String::from_str(input);
        let mut i: usize = 0;
        while i < self.patterns.len()
            invariant
                self.wf(),
                i <= self.patterns@.len(),
                output@ == redaction(
                    sources(self.config.pii_patterns@).take(i as int),
                    input@,
                    self.config.redacted_placeholder@,
                ),
            decreases self.patterns@.len() - i,
        {
            let ghost srcs = sources(self.config.pii_patterns@);
            assert(srcs.take(i + 1).drop_last() =~= srcs.take(i as int));
            assert(self.patterns@[i as int].view() == self.config.pii_patterns@[i as int]@);
            output = replace_all(&self.patterns[i], output.as_str(), self.config.redacted_placeholder.as_str());
            i = i + 1;
        }
        assert(sources(self.config.pii_patterns@).take(i as int) =~= sources(self.config.pii_patterns@));
        output
    }

    /// Sets the kill switch. Nothing unsets it.
    pub fn trigger_kill_switch(&mut self)
        requires
            old(self).wf(),
        ensures
            final(self).wf(),
            final(self).killed(),
            final(self).config() == old(self).config(),
    {
        self.kill_switch = true;
    }

    /// Lets a request to `domain` through when the kill switch is unset and
    /// the domain is in the allow-list.
    pub fn validate_request(&self, domain: &str) -> (r: Result<(), ShieldError>)
        ensures
            r is Ok <==> self.admits(domain@),
            self.killed() ==> r matches Err(ShieldError::KillSwitchActive),
            !self.killed() && !domain_listed(self.config().allowed_domains@, domain@) ==> (r matches Err(
                ShieldError::DomainNotAllowed(d),
            ) && d@ == domain@),
    {
        if self.kill_switch {
            return Err(ShieldError::KillSwitchActive);
        }
        let mut i: usize = 0;
        while i < self.config.allowed_domains.len()
            invariant
                !self.kill_switch,
                i <= self.config.allowed_domains@.len(),
                forall|j: int| 0 <= j < i ==> self.config.allowed_domains@[j]@ != domain@,
            decreases self.config.allowed_domains@.len() - i,
        {
            if same_text(self.config.allowed_domains[i].as_str(), domain) {
                return Ok(());
            }
            i = i + 1;
        }
        Err(ShieldError::DomainNotAllowed(String::from_str(domain)))
    }

    /// Lets an export to `path` through when it lies inside the workspace
    /// rooted at `workspace_root`. The caller passes the canonical form of
    /// the path when it exists.
    pub fn validate_file_export(&self, path: &str, workspace_root: &str) -> (r: Result<(), ShieldError>)
        ensures
            r is Ok <==> path_starts_with(path@, workspace_root@),
            r matches Err(e) ==> (e matches ShieldError::OutsideWorkspace(p) && p@ == path@),
    {
        if path_under(path, workspace_root) {
            Ok(())
        } else {
            Err(ShieldError::OutsideWorkspace(String::from_str(path)))
        }
    }
}

/// Once the kill switch is set, every request is refused with the
/// kill-switch error and every text redacts to the sentinel, whatever the
/// input.
pub proof fn law_kill_switch_blocks_all(s: Shield, domain: Seq<char>, text: Seq<char>)
    requires
        s.killed(),
    ensures
        !s.admits(domain),
        s.redact_result(text) == KILL_SWITCH_SENTINEL@,
{
}

/// Validates the destination, then scrubs the content, for a shield shared
/// with other holders.
pub struct ShieldInterceptor {
    shield: std::sync::Arc<Shield>,
}

impl ShieldInterceptor {
    pub fn new(shield: std::sync::Arc<Shield>) -> (r: ShieldInterceptor)
        ensures
            r.shield() == *shield,
    {
        ShieldInterceptor { shield }
    }

    pub closed spec fn shield(&self) -> Shield {
        *self.shield
    }

    /// The redacted content when a request to `target_domain` is let
    /// through; the refusal otherwise.
    pub fn intercept_and_scrub(&self, content: &str, target_domain: &str) -> (r: Result<String, ShieldError>)
        requires
            self.shield().wf(),
        ensures
            r is Ok <==> self.shield().admits(target_domain@),
            r matches Ok(t) ==> t@ == self.shield().redact_result(content@),
            self.shield().killed() ==> r matches Err(ShieldError::KillSwitchActive),
    {
        match self.shield.validate_request(target_domain) {
            Ok(()) => Ok(self.shield.redact(content)),
            Err(e) => Err(e),
        }
    }
}

/// What the boundary proxy does with a request.
#[derive(Debug, PartialEq, Eq, Structural, Clone, Copy)]
pub enum ProxyVerdict {
    /// Answer 403 and open nothing.
    Forbidden,
    /// Accept the CONNECT and relay bytes to the target.
    Tunnel,
    /// Forward the request.
    Forward,
}

/// The proxy's verdict on a request: one whose target host the shield
/// refuses is forbidden; an accepted CONNECT opens a tunnel; any other
/// accepted request is forwarded.
pub fn proxy_verdict(shield: &Shield, is_connect: bool, host: Option<&str>) -> (v: ProxyVerdict)
    ensures
        (host matches Some(h) && !shield.admits(h@)) ==> v == ProxyVerdict::Forbidden,
        (host matches Some(h) && shield.admits(h@)) ==> v == (if is_connect {
            ProxyVerdict::Tunnel
        } else {
            ProxyVerdict::Forward
        }),
        host is None ==> v == (if is_connect {
            ProxyVerdict::Tunnel
        } else {
            ProxyVerdict::Forward
        }),
{
    if let Some(h) = host {
        if shield.validate_request(h).is_err() {
            return ProxyVerdict::Forbidden;
        }
    }
    if is_connect {
        ProxyVerdict::Tunnel
    } else {
        ProxyVerdict::Forward
    }
}

/// The HTTP status the proxy answers with for a verdict.
pub fn verdict_status(v: ProxyVerdict) -> (r: u16)
    ensures
        r == (if v == ProxyVerdict::Forbidden {
            403u16
        } else {
            200u16
        }),
{
    match v {
        ProxyVerdict::Forbidden => 403,
        _ => 200,
    }
}

} // verus!
