//! What a node advertises about itself, and how a job's model is matched
//! against it.

use vstd::prelude::*;
use crate::text::{contains_text, text_contains};

verus! {

/// A node's capability profile as announced on the mesh.
#[derive(Debug, Clone)]
pub struct NodeCapability {
    pub models: Vec<String>,
    pub max_context: u32,
    pub quant: String,
    /// The rough speed estimate, as the bits of an IEEE-754 single-precision
    /// number.
    pub estimated_speed_bits: u32,
    pub supported_tasks: Vec<String>,
}

/// The bits of the single-precision number 25.0, the default speed
/// estimate.
pub const DEFAULT_SPEED_BITS: u32 = 0x41c8_0000;

pub const DEFAULT_MAX_CONTEXT: u32 = 8192;

/// Whether one of `models` is the job's model or contains its name.
pub open spec fn serves_model(models: Seq<String>, job_model: Seq<char>) -> bool {
    exists|i: int|
        0 <= i < models.len() && (#[trigger] models[i]@ == job_model || text_contains(
            models[i]@,
            job_model,
        ))
}

/// A node serves a job's model exactly when that model occurs, at some
/// position, in one of the node's models.
pub proof fn lemma_served_iff_occurs(models: Seq<String>, job_model: Seq<char>)
    ensures
        serves_model(models, job_model) <==> exists|i: int, k: int|
            0 <= i < models.len() && 0 <= k && k + job_model.len() <= models[i]@.len()
                && #[trigger] models[i]@.subrange(k, k + job_model.len()) == job_model,
{
    if serves_model(models, job_model) {
        let i = choose|i: int|
            0 <= i < models.len() && (#[trigger] models[i]@ == job_model || text_contains(
                models[i]@,
                job_model,
            ));
        if models[i]@ == job_model {
            assert(models[i]@.subrange(0, 0 + job_model.len() as int) =~= job_model);
        } else {
            let k = choose|k: int|
                0 <= k <= models[i]@.len() - job_model.len() && #[trigger] models[i]@.subrange(
                    k,
                    k + job_model.len(),
                ) == job_model;
            assert(models[i]@.subrange(k, k + job_model.len()) == job_model);
        }
    }
    if exists|i: int, k: int|
        0 <= i < models.len() && 0 <= k && k + job_model.len() <= models[i]@.len()
            && #[trigger] models[i]@.subrange(k, k + job_model.len()) == job_model {
        let (i, k) = choose|i: int, k: int|
            0 <= i < models.len() && 0 <= k && k + job_model.len() <= models[i]@.len()
                && #[trigger] models[i]@.subrange(k, k + job_model.len()) == job_model;
        assert(text_contains(models[i]@, job_model));
    }
}

/// A node serves a job's model wherever that model occurs in one of its
/// models, at the start or further on.
pub proof fn lemma_served_at_any_position(models: Seq<String>, job_model: Seq<char>, i: int, k: int)
    requires
        0 <= i < models.len(),
        0 <= k,
        k + job_model.len() <= models[i]@.len(),
        models[i]@.subrange(k, k + job_model.len()) == job_model,
    ensures
        serves_model(models, job_model),
{
    lemma_served_iff_occurs(models, job_model);
}

impl NodeCapability {
    /// The default profile announcing a single model.
    pub fn for_model(model_name: String) -> (r: Self)
        ensures
            r.models@.len() == 1,
            r.models@[0] == model_name,
            r.max_context == DEFAULT_MAX_CONTEXT,
            r.quant@ == "Q4_K_M"@,
            r.estimated_speed_bits == DEFAULT_SPEED_BITS,
            r.supported_tasks@.len() == 1,
            r.supported_tasks@[0]@ == "chat"@,
    {
        let mut models: Vec<String> = Vec::new();
        models.push(model_name);
        let mut supported_tasks: Vec<String> = Vec::new();
        supported_tasks.push("chat".to_owned());
        NodeCapability {
            models,
            max_context: DEFAULT_MAX_CONTEXT,
            quant: "Q4_K_M".to_owned(),
            estimated_speed_bits: DEFAULT_SPEED_BITS,
            supported_tasks,
        }
    }

    /// Whether this node serves the job's model: one of its models is that
    /// model or contains its name. A job scores a bonus when it does.
    pub fn matches_model(&self, job_model: &str) -> (r: bool)
        ensures
            r == serves_model(self.models@, job_model@),
            r <==> exists|i: int, k: int|
                0 <= i < self.models@.len() && 0 <= k && k + job_model@.len() <= self.models@[i]@.len()
                    && #[trigger] self.models@[i]@.subrange(k, k + job_model@.len()) == job_model@,
    {
        proof {
            lemma_served_iff_occurs(self.models@, job_model@);
        }
        let mut i: usize = 0;
        while i < self.models.len()
            invariant
                0 <= i <= self.models@.len(),
                forall|k: int|
                    0 <= k < i ==> !(#[trigger] self.models@[k]@ == job_model@ || text_contains(
                        self.models@[k]@,
                        job_model@,
                    )),
            decreases self.models@.len() - i,
        {
            if contains_text(self.models[i].as_str(), job_model) {
                return true;
            }
            proof {
                let m = self.models@[i as int]@;
                if m == job_model@ {
                    assert(m.subrange(0, 0 + job_model@.len() as int) =~= job_model@);
                }
            }
            i = i + 1;
        }
        false
    }
}

impl Default for NodeCapability {
    fn default() -> (r: Self)
        ensures
            r.models@.len() == 1,
            r.models@[0]@ == "local-model"@,
            r.max_context == DEFAULT_MAX_CONTEXT,
            r.quant@ == "Q4_K_M"@,
            r.estimated_speed_bits == DEFAULT_SPEED_BITS,
            r.supported_tasks@.len() == 1,
            r.supported_tasks@[0]@ == "chat"@,
    {
        Self::for_model("local-model".to_owned())
    }
}

} // verus!
