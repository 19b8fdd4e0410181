//! A unification layer in front of chat-completion providers: the message
//! model, the registry of models by code, the resolver that picks a model for
//! a request, the adapters for the OpenAI wire shapes, the per-request
//! streaming state machine, and the error taxonomy with its transport status.
pub mod ai;
pub mod error;

pub use ai::invoke;
pub use ai::providers;
pub use ai::registry;
pub use ai::types;

use crate::ai::registry::{
    lemma_registry_names_configured_providers, providers_below, register_catalog, registry_of,
    ModelsByCode,
};
use crate::ai::providers::openai::OpenAIOpts;
use crate::ai::types::{catalog_views, model_views, Model, ProviderModel};
use vstd::prelude::*;

verus! {

/// The options of the process: the address to listen on, and what each
/// provider needs.
#[derive(Debug, PartialEq, Eq)]
pub struct Opts {
    pub host: String,
    pub openai: OpenAIOpts,
}

impl Clone for Opts {
    fn clone(&self) -> (copy: Opts)
        ensures
            copy.host@ == self.host@,
            copy.openai.api_key@ == self.openai.api_key@,
    {
        Opts { host: self.host.clone(), openai: self.openai.clone() }
    }
}

/// Builds the registry from what every configured provider advertises:
/// `catalogs[p]` holds the models of the provider at position `p`. The
/// providers are taken in configuration order and the models of each in the
/// order given; a code that comes again replaces the earlier entry. Every
/// entry names the position of one of these providers.
pub fn get_provider_models(catalogs: &Vec<Vec<Model>>) -> (models: ModelsByCode)
    ensures
        models@ == registry_of(catalog_views(catalogs@)),
        providers_below(models@, catalogs@.len() as int),
{
    let ghost all = catalog_views(catalogs@);
    let mut models = ModelsByCode::new();
    let mut p: usize = 0;
    while p < catalogs.len()
        invariant
            p <= catalogs@.len(),
            all == catalog_views(catalogs@),
            models@ == registry_of(all.take(p as int)),
        decreases catalogs@.len() - p,
    {
        let catalog = &catalogs[p];
        let ghost before = models@;
        let ghost advertised = model_views(catalog@);
        let mut m: usize = 0;
        while m < catalog.len()
            invariant
                m <= catalog@.len(),
                advertised == model_views(catalog@),
                models@ == register_catalog(before, p, advertised.take(m as int)),
            decreases catalog@.len() - m,
        {
            let entry = ProviderModel { provider: p, model: catalog[m].clone() };
            models.insert(entry);
            proof {
                assert(advertised.take(m + 1).drop_last() =~= advertised.take(m as int));
                assert(advertised.take(m + 1).last() == catalog@[m as int]@);
            }
            m += 1;
        }
        proof {
            assert(advertised.take(catalog@.len() as int) =~= advertised);
            assert(all.take(p + 1).drop_last() =~= all.take(p as int));
            assert(all.take(p + 1).last() == advertised);
        }
        p += 1;
    }
    proof {
        assert(all.take(catalogs@.len() as int) =~= all);
        lemma_registry_names_configured_providers(all);
    }
    models
}

} // verus!
