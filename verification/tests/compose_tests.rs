use connectors::compose::selection_valid;
use connectors::compose::{encryption_layers, LayerStack};

#[test]
fn both_composition_orders_give_one_encryption_layer() {
    // Pool(Tls(Base)) pools encrypted connections ...
    let pool_over_tls = LayerStack::Pool(Box::new(LayerStack::Tls(Box::new(LayerStack::Base))));
    // ... Tls(Pool(Base)) pools plaintext ones; the framing layer sees
    // the same connection shape either way.
    let tls_over_pool = LayerStack::Tls(Box::new(LayerStack::Pool(Box::new(LayerStack::Base))));
    assert_eq!(encryption_layers(&pool_over_tls), 1);
    assert_eq!(encryption_layers(&tls_over_pool), 1);
}

#[test]
fn base_stack_is_plaintext() {
    assert_eq!(encryption_layers(&LayerStack::Base), 0);
    let pooled = LayerStack::Pool(Box::new(LayerStack::Base));
    assert_eq!(encryption_layers(&pooled), 0);
}

#[test]
fn exactly_one_assembly_must_be_selected() {
    // Each single selection is valid.
    assert!(selection_valid(true, false, false));
    assert!(selection_valid(false, true, false));
    assert!(selection_valid(false, false, true));
    // Conflicting options are refused ...
    assert!(!selection_valid(true, true, false));
    assert!(!selection_valid(true, false, true));
    assert!(!selection_valid(false, true, true));
    assert!(!selection_valid(true, true, true));
    // ... and so is selecting nothing.
    assert!(!selection_valid(false, false, false));
}
