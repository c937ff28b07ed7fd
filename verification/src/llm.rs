//! The refinement-service client: everything about the request that is
//! plain computation.  The HTTP call itself is host work; this module
//! fixes, exactly, the endpoint URLs and the prompt that the host must
//! send, and the host hands the service's answer back to the session
//! coordinator.

use crate::text::{replace_all, spec_replace, spec_strip_trailing_slashes, strip_trailing_slashes};
use vstd::prelude::*;

verus! {

/// A fully computed refinement request for the host to send.
pub struct RefinementRequest {
    /// Where to POST the generation request.
    pub url: String,
    /// The model to name in the request body.
    pub model: String,
    /// The prompt: the template with its input marker replaced by the
    /// raw transcription.
    pub prompt: String,
}

/// Client configuration for the refinement service.
pub struct OllamaClient {
    pub base_url: String,
    pub model: String,
}

impl OllamaClient {
    /// A client for the service at `base_url` (trailing slashes
    /// dropped), refining with `model`.
    pub fn new(base_url: &str, model: &str) -> (r: Self)
        ensures
            r.base_url@ == spec_strip_trailing_slashes(base_url@),
            r.model@ == model@,
    {
        Self { base_url: strip_trailing_slashes(base_url), model: model.to_owned() }
    }

    /// A client with default settings.
    pub fn default() -> (r: Self)
        ensures
            r.base_url@ == "http://localhost:11434"@,
            r.model@ == "gpt-oss:20b"@,
    {
        proof {
            reveal_strlit("http://localhost:11434");
        }
        let r = Self::new("http://localhost:11434", "gpt-oss:20b");
        proof {
            assert(r.base_url@ =~= "http://localhost:11434"@);
        }
        r
    }

    /// The model name.
    pub fn model(&self) -> (r: &str)
        ensures
            r@ == self.model@,
    {
        self.model.as_str()
    }

    /// The base URL.
    pub fn base_url(&self) -> (r: &str)
        ensures
            r@ == self.base_url@,
    {
        self.base_url.as_str()
    }

    /// The generation endpoint.
    pub fn generate_url(&self) -> (r: String)
        ensures
            r@ == self.base_url@ + "/api/generate"@,
    {
        self.base_url.clone().concat("/api/generate")
    }

    /// The endpoint whose reachability tells whether the service is
    /// available; the host sends the probe.
    pub fn tags_url(&self) -> (r: String)
        ensures
            r@ == self.base_url@ + "/api/tags"@,
    {
        self.base_url.clone().concat("/api/tags")
    }

    /// The request that refines `raw_text` under `prompt_template`: the
    /// template's `{input}` markers are replaced by the raw text.
    pub fn refinement_request(&self, raw_text: &str, prompt_template: &str) -> (r:
        RefinementRequest)
        ensures
            r.url@ == self.base_url@ + "/api/generate"@,
            r.model@ == self.model@,
            r.prompt@ == spec_replace(prompt_template@, "{input}"@, raw_text@),
    {
        proof {
            reveal_strlit("{input}");
        }
        RefinementRequest {
            url: self.generate_url(),
            model: self.model.clone(),
            prompt: replace_all(prompt_template, "{input}", raw_text),
        }
    }
}

} // verus!
