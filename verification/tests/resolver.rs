use weatherwax::ai::invoke::resolve_model;
use weatherwax::ai::types::{Model, ProviderModel};
use weatherwax::error::Error;
use weatherwax::get_provider_models;

fn model(code: &str) -> Model {
    Model { code: code.to_string(), supports_function_calling: true, supports_images: true }
}

#[test]
fn empty_registry_without_code_is_no_model_available() {
    let models = get_provider_models(&Vec::new());
    assert_eq!(resolve_model(&models, None), Err(Error::NoModelAvailableError));
}

#[test]
fn empty_registry_with_code_is_model_not_found() {
    let models = get_provider_models(&Vec::new());
    assert_eq!(
        resolve_model(&models, Some("p::m1".to_string())),
        Err(Error::ModelNotFoundError("p::m1".to_string()))
    );
}

#[test]
fn unknown_code_is_model_not_found_whatever_the_size() {
    let one = get_provider_models(&vec![vec![model("p::m1")]]);
    let three = get_provider_models(&vec![vec![model("p::m1"), model("p::m2")], vec![model("q::m1")]]);
    for models in [&one, &three] {
        assert_eq!(
            resolve_model(models, Some("missing::code".to_string())),
            Err(Error::ModelNotFoundError("missing::code".to_string()))
        );
    }
}

#[test]
fn a_code_is_matched_exactly() {
    let models = get_provider_models(&vec![vec![model("p::m1"), model("p::m2")]]);
    assert_eq!(
        resolve_model(&models, Some("p::m".to_string())),
        Err(Error::ModelNotFoundError("p::m".to_string()))
    );
    assert_eq!(
        resolve_model(&models, Some("P::M1".to_string())),
        Err(Error::ModelNotFoundError("P::M1".to_string()))
    );
    assert_eq!(
        resolve_model(&models, Some("".to_string())),
        Err(Error::ModelNotFoundError("".to_string()))
    );
}

#[test]
fn without_code_the_first_entry_is_taken() {
    let models = get_provider_models(&vec![vec![model("p::m1"), model("p::m2")], vec![model("q::m1")]]);
    assert_eq!(
        resolve_model(&models, None),
        Ok(&ProviderModel { provider: 0, model: model("p::m1") })
    );
}

#[test]
fn without_code_every_call_gives_the_same_entry() {
    let models = get_provider_models(&vec![vec![model("p::m2"), model("p::m1")], vec![model("q::m1")]]);
    let first = resolve_model(&models, None).expect("the registry is not empty").clone();
    for _ in 0..20 {
        assert_eq!(resolve_model(&models, None), Ok(&first));
    }
    assert_eq!(first.model.code, "p::m2");
}

#[test]
fn a_requested_code_wins_over_the_default() {
    let models = get_provider_models(&vec![vec![model("p::m1"), model("p::m2")], vec![model("q::m1")]]);
    assert_eq!(
        resolve_model(&models, Some("q::m1".to_string())),
        Ok(&ProviderModel { provider: 1, model: model("q::m1") })
    );
    assert_eq!(
        resolve_model(&models, Some("p::m2".to_string())),
        Ok(&ProviderModel { provider: 0, model: model("p::m2") })
    );
}
