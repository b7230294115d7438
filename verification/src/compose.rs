//! Connector composition model.
//!
//! Connectors compose by ownership: an outer layer exclusively owns
//! its inner connector and resolves a key by asking the inner one
//! first, then doing its own layer's work.  Composition is purely
//! additive — wrapping a connector never changes the semantics of
//! connections it did not itself modify.  In particular a pooling
//! layer hands out connections of exactly the shape its inner
//! connector produces, so pooling a TLS connector and TLS-wrapping a
//! pooling connector give the framing layer the same observable
//! connection (their cache-hit behaviour differs: one reuses
//! encrypted connections, the other plaintext ones).

use vstd::prelude::*;

verus! {

/// A stack of connector layers over a raw transport connector.
#[derive(Debug)]
pub enum LayerStack {
    /// The raw transport connector.
    Base,
    /// A TLS connector wrapping an inner stack.
    Tls(Box<LayerStack>),
    /// A pooling connector wrapping an inner stack.
    Pool(Box<LayerStack>),
}

/// How many times a stack encrypts the raw byte stream — all that
/// composition order can change in the connection the framing layer
/// receives.
pub open spec fn spec_encryption_layers(stack: LayerStack) -> nat
    decreases stack,
{
    match stack {
        LayerStack::Base => 0,
        LayerStack::Tls(inner) => spec_encryption_layers(*inner) + 1,
        LayerStack::Pool(inner) => spec_encryption_layers(*inner),
    }
}

/// Pooling is observably transparent: a pooled stack hands the
/// framing layer connections of exactly its inner stack's shape.
pub proof fn lemma_pool_transparent(inner: LayerStack)
    ensures
        spec_encryption_layers(LayerStack::Pool(Box::new(inner)))
            == spec_encryption_layers(inner),
{
}

/// Composition-order transparency: over any base stack,
/// `Pool(Tls(base))` and `Tls(Pool(base))` yield connections of the
/// same observable shape — one extra encryption layer over the base.
pub proof fn lemma_composition_order_transparent(base: LayerStack)
    ensures
        spec_encryption_layers(LayerStack::Pool(Box::new(LayerStack::Tls(Box::new(base)))))
            == spec_encryption_layers(LayerStack::Tls(Box::new(LayerStack::Pool(Box::new(base))))),
        spec_encryption_layers(LayerStack::Pool(Box::new(LayerStack::Tls(Box::new(base)))))
            == spec_encryption_layers(base) + 1,
{
    assert(spec_encryption_layers(LayerStack::Tls(Box::new(base))) == spec_encryption_layers(base)
        + 1);
    assert(spec_encryption_layers(LayerStack::Pool(Box::new(base))) == spec_encryption_layers(
        base,
    ));
    assert(spec_encryption_layers(LayerStack::Tls(Box::new(LayerStack::Pool(Box::new(base)))))
        == spec_encryption_layers(base) + 1);
    assert(spec_encryption_layers(LayerStack::Pool(Box::new(LayerStack::Tls(Box::new(base)))))
        == spec_encryption_layers(base) + 1);
}

/// The observable connection for one destination: the raw stream to
/// the key, under one encryption wrapper per TLS layer on the way
/// down.
#[derive(Debug)]
pub enum ConnShape<K> {
    /// A raw transport stream to the destination key.
    Plain { key: K },
    /// A TLS-encrypted stream over an inner connection.
    Encrypted(Box<ConnShape<K>>),
}

/// The shape of the connection `stack` hands the framing layer for
/// `key`.  A pooling layer hands out exactly its inner stack's shape:
/// whether a connection was reused or freshly established is
/// invisible to the framing layer, which sees the same bytes under
/// the same readiness contract either way.
pub open spec fn spec_shape<K>(stack: LayerStack, key: K) -> ConnShape<K>
    decreases stack,
{
    match stack {
        LayerStack::Base => ConnShape::Plain { key },
        LayerStack::Tls(inner) => ConnShape::Encrypted(Box::new(spec_shape(*inner, key))),
        LayerStack::Pool(inner) => spec_shape(*inner, key),
    }
}

/// Composition-order transparency, key by key: for every destination
/// key and any base stack, `Pool(Tls(base))` and `Tls(Pool(base))`
/// hand the framing layer the very same observable connection — the
/// base stack's connection to that key under one extra encryption
/// layer.  Only the cache-hit rate differs between the two orders:
/// one reuses encrypted connections, the other plaintext ones.
pub proof fn lemma_same_shape_for_all_keys<K>(base: LayerStack, key: K)
    ensures
        spec_shape(LayerStack::Pool(Box::new(LayerStack::Tls(Box::new(base)))), key)
            == spec_shape(LayerStack::Tls(Box::new(LayerStack::Pool(Box::new(base)))), key),
        spec_shape(LayerStack::Pool(Box::new(LayerStack::Tls(Box::new(base)))), key)
            == ConnShape::Encrypted(Box::new(spec_shape(base, key))),
{
    assert(spec_shape(LayerStack::Tls(Box::new(base)), key) == ConnShape::Encrypted(
        Box::new(spec_shape(base, key)),
    ));
    assert(spec_shape(LayerStack::Pool(Box::new(base)), key) == spec_shape(base, key));
    assert(spec_shape(LayerStack::Tls(Box::new(LayerStack::Pool(Box::new(base)))), key)
        == ConnShape::Encrypted(Box::new(spec_shape(base, key))));
    assert(spec_shape(LayerStack::Pool(Box::new(LayerStack::Tls(Box::new(base)))), key)
        == ConnShape::Encrypted(Box::new(spec_shape(base, key))));
}

/// Counts a stack's encryption layers.
pub fn encryption_layers(stack: &LayerStack) -> (n: u64)
    requires
        spec_encryption_layers(*stack) <= u64::MAX,
    ensures
        n == spec_encryption_layers(*stack),
    decreases *stack,
{
    match stack {
        LayerStack::Base => 0,
        LayerStack::Tls(inner) => {
            let m = encryption_layers(inner);
            m + 1
        },
        LayerStack::Pool(inner) => encryption_layers(inner),
    }
}

/// Whether a build-time backend selection is valid: exactly one way
/// of assembling the crate may be linked per binary.  The pooling
/// layer and the alternate TLS backend each conflict with the bundled
/// all-in-one mode, the alternate TLS backend conflicts with pooling,
/// and selecting nothing at all is refused too.
pub open spec fn spec_selection_valid(pool: bool, alt_tls: bool, all_in_one: bool) -> bool {
    &&& !(alt_tls && pool)
    &&& !(all_in_one && (pool || alt_tls))
    &&& (pool || alt_tls || all_in_one)
}

/// Checks a build-time backend selection, refusing conflicting or
/// empty option sets before anything runs.
pub fn selection_valid(pool: bool, alt_tls: bool, all_in_one: bool) -> (r: bool)
    ensures
        r == spec_selection_valid(pool, alt_tls, all_in_one),
{
    if alt_tls && pool {
        return false;
    }
    if all_in_one && (pool || alt_tls) {
        return false;
    }
    pool || alt_tls || all_in_one
}

} // verus!
