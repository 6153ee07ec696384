//! The providers shipped with the router: a local Ollama model and an
//! OpenAI model.

use vstd::prelude::*;
use crate::router::{Capability, PrivacyLevel, Provider, ProviderInfo};

verus! {

/// A model served by a local Ollama instance.
pub struct OllamaProvider {
    pub model: String,
    pub base_url: String,
}

/// A model of OpenAI's.
pub struct OpenAIProvider {
    pub model: String,
    pub api_key: String,
}

fn capability(name: &str, score: u8, cost_micros_per_1k_tokens: u32) -> (c: Capability)
    ensures
        c.name@ == name@,
        c.score == score,
        c.cost_micros_per_1k_tokens == cost_micros_per_1k_tokens,
{
    Capability { name: String::from_str(name), score, cost_micros_per_1k_tokens }
}

fn labelled(prefix: &str, model: &str, suffix: &str) -> (r: String)
    ensures
        r@ == prefix@ + model@ + suffix@,
{
    let mut r = String::from_str(prefix);
    r.append(model);
    r.append(suffix);
    r
}

impl OllamaProvider {
    /// Id `ollama-<model>`; local, 100 ms; free text generation (70), code
    /// editing (60) and local privacy (100).
    pub fn describe(&self) -> (p: ProviderInfo)
        ensures
            p.id@ == "ollama-"@ + self.model@,
            p.name@ == "Ollama ("@ + self.model@ + ")"@,
            p.latency_ms == 100,
            p.privacy_level == PrivacyLevel::Local,
            p.capabilities@.len() == 3,
            p.capabilities@[0].name@ == "text-generation"@ && p.capabilities@[0].score == 70,
            p.capabilities@[1].name@ == "code-editing"@ && p.capabilities@[1].score == 60,
            p.capabilities@[2].name@ == "local-privacy"@ && p.capabilities@[2].score == 100,
            forall|i: int| 0 <= i < 3 ==> #[trigger] p.capabilities@[i].cost_micros_per_1k_tokens == 0,
    {
        let mut capabilities: Vec<Capability> = Vec::new();
        capabilities.push(capability("text-generation", 70, 0));
        capabilities.push(capability("code-editing", 60, 0));
        capabilities.push(capability("local-privacy", 100, 0));
        ProviderInfo {
            id: String::from_str("ollama-").concat(self.model.as_str()),
            name: labelled("Ollama (", self.model.as_str(), ")"),
            capabilities,
            latency_ms: 100,
            privacy_level: PrivacyLevel::Local,
        }
    }
}

impl OpenAIProvider {
    /// Id `openai-<model>`; cloud, 1000 ms; text generation (95) and code
    /// editing (90) at 0.01, complex reasoning (98) at 0.03 per thousand
    /// tokens.
    pub fn describe(&self) -> (p: ProviderInfo)
        ensures
            p.id@ == "openai-"@ + self.model@,
            p.name@ == "OpenAI ("@ + self.model@ + ")"@,
            p.latency_ms == 1000,
            p.privacy_level == PrivacyLevel::Cloud,
            p.capabilities@.len() == 3,
            p.capabilities@[0].name@ == "text-generation"@ && p.capabilities@[0].score == 95
                && p.capabilities@[0].cost_micros_per_1k_tokens == 10_000,
            p.capabilities@[1].name@ == "code-editing"@ && p.capabilities@[1].score == 90
                && p.capabilities@[1].cost_micros_per_1k_tokens == 10_000,
            p.capabilities@[2].name@ == "complex-reasoning"@ && p.capabilities@[2].score == 98
                && p.capabilities@[2].cost_micros_per_1k_tokens == 30_000,
    {
        let mut capabilities: Vec<Capability> = Vec::new();
        capabilities.push(capability("text-generation", 95, 10_000));
        capabilities.push(capability("code-editing", 90, 10_000));
        capabilities.push(capability("complex-reasoning", 98, 30_000));
        ProviderInfo {
            id: String::from_str("openai-").concat(self.model.as_str()),
            name: labelled("OpenAI (", self.model.as_str(), ")"),
            capabilities,
            latency_ms: 1000,
            privacy_level: PrivacyLevel::Cloud,
        }
    }
}

impl Provider for OllamaProvider {
    fn info(&self) -> ProviderInfo {
        self.describe()
    }
}

impl Provider for OpenAIProvider {
    fn info(&self) -> ProviderInfo {
        self.describe()
    }
}

} // verus!
