//! A bounded pool of reusable objects, such as clients.
//!
//! The pool keeps count of what is checked out and holds what is idle. An idle object is
//! handed out before a new one is made, and what comes back is kept up to a limit.

use crate::error::{ErrorView, TransportError};
use vstd::prelude::*;

verus! {

/// The bounds of a pool.
#[derive(Clone, Copy, Debug, PartialEq, Eq, Structural)]
pub struct PoolConfig {
    /// The most objects that are checked out at once.
    pub max_pool_size: usize,
    /// The most objects that are kept idle.
    pub max_idle: usize,
}

/// The default of [`PoolConfig::max_pool_size`].
pub const DEFAULT_MAX_POOL_SIZE: usize = 8;

/// The default of [`PoolConfig::max_idle`].
pub const DEFAULT_MAX_IDLE: usize = 8;

/// Whether a pool can have these bounds: at least one object, and no more idle than in all.
pub open spec fn valid_config(c: PoolConfig) -> bool {
    0 < c.max_pool_size && c.max_idle <= c.max_pool_size
}

impl PoolConfig {
    /// The given bounds.
    pub fn new(max_pool_size: usize, max_idle: usize) -> (r: Self)
        ensures
            r == (PoolConfig { max_pool_size, max_idle }),
    {
        PoolConfig { max_pool_size, max_idle }
    }

    /// Whether a pool can have these bounds.
    pub fn is_valid(&self) -> (r: bool)
        ensures
            r == valid_config(*self),
    {
        0 < self.max_pool_size && self.max_idle <= self.max_pool_size
    }
}

impl Default for PoolConfig {
    fn default() -> (r: Self)
        ensures
            r == (PoolConfig {
                max_pool_size: DEFAULT_MAX_POOL_SIZE,
                max_idle: DEFAULT_MAX_IDLE,
            }),
            valid_config(r),
            r.max_pool_size == 8,
            r.max_idle == 8,
    {
        PoolConfig { max_pool_size: DEFAULT_MAX_POOL_SIZE, max_idle: DEFAULT_MAX_IDLE }
    }
}

/// A pool as mathematical values.
#[verifier::ext_equal]
pub struct PoolView<T> {
    pub config: PoolConfig,
    /// The idle objects; the one that came back last is the last.
    pub idle: Seq<T>,
    /// How many objects are checked out.
    pub checked_out: nat,
}

/// Whether a pool is within its bounds. No more objects exist at once than the pool has room
/// for, be they idle or checked out.
pub open spec fn bounded<T>(v: PoolView<T>) -> bool {
    &&& valid_config(v.config)
    &&& v.idle.len() <= v.config.max_idle
    &&& v.idle.len() + v.checked_out <= v.config.max_pool_size
}

/// A bounded pool.
pub struct HttpClientPool<T> {
    config: PoolConfig,
    idle: Vec<T>,
    checked_out: usize,
}

impl<T> View for HttpClientPool<T> {
    type V = PoolView<T>;

    closed spec fn view(&self) -> PoolView<T> {
        PoolView {
            config: self.config,
            idle: self.idle@,
            checked_out: self.checked_out as nat,
        }
    }
}

/// What a checkout may do.
pub enum Checkout<T> {
    /// An idle object is handed out.
    Reused(T),
    /// A place is taken; the object is still to be made.
    Create,
    /// Every place is taken.
    Exhausted,
}

/// What a checkout does: the idle object that came back last, or else a place, or else nothing.
pub open spec fn checkout<T>(v: PoolView<T>) -> (PoolView<T>, Checkout<T>) {
    if v.idle.len() > 0 {
        (
            PoolView { idle: v.idle.drop_last(), checked_out: v.checked_out + 1, ..v },
            Checkout::Reused(v.idle.last()),
        )
    } else if v.checked_out < v.config.max_pool_size {
        (PoolView { checked_out: v.checked_out + 1, ..v }, Checkout::Create)
    } else {
        (v, Checkout::Exhausted)
    }
}

/// A pool of which one place is given up.
pub open spec fn released<T>(v: PoolView<T>) -> PoolView<T> {
    if v.checked_out > 0 {
        PoolView { checked_out: (v.checked_out - 1) as nat, ..v }
    } else {
        v
    }
}

/// A pool to which an object comes back: it gives up a place, and keeps the object where there
/// is room for an idle one. Where nothing is checked out, nothing can come back.
pub open spec fn returned<T>(v: PoolView<T>, object: T) -> PoolView<T> {
    if v.checked_out > 0 && v.idle.len() < v.config.max_idle {
        PoolView { idle: v.idle.push(object), ..released(v) }
    } else {
        released(v)
    }
}

impl<T> HttpClientPool<T> {
    #[verifier::type_invariant]
    spec fn within_bounds(self) -> bool {
        bounded(self@)
    }

    /// An empty pool with bounds that are known to be valid.
    pub fn new(config: PoolConfig) -> (r: Self)
        requires
            valid_config(config),
        ensures
            r@ == (PoolView::<T> { config, idle: Seq::empty(), checked_out: 0 }),
    {
        HttpClientPool { config, idle: Vec::new(), checked_out: 0 }
    }

    /// An empty pool, or an error for bounds that are not valid.
    pub fn try_new(config: PoolConfig) -> (r: Result<Self, TransportError>)
        ensures
            match r {
                Ok(pool) => valid_config(config) && pool@ == (PoolView::<T> {
                    config,
                    idle: Seq::empty(),
                    checked_out: 0,
                }),
                Err(e) => !valid_config(config) && e@ == ErrorView::ProtocolViolation(
                    (if config.max_pool_size == 0 {
                        "max_pool_size must be greater than zero"@
                    } else {
                        "max_idle must not exceed max_pool_size"@
                    }),
                ),
            },
    {
        if config.max_pool_size == 0 {
            return Err(
                TransportError::ProtocolViolation(
                    "max_pool_size must be greater than zero".to_owned(),
                ),
            );
        }
        if config.max_idle > config.max_pool_size {
            return Err(
                TransportError::ProtocolViolation(
                    "max_idle must not exceed max_pool_size".to_owned(),
                ),
            );
        }
        Ok(Self::new(config))
    }

    /// The bounds of the pool.
    pub fn config(&self) -> (r: PoolConfig)
        ensures
            r == self@.config,
            bounded(self@),
    {
        proof {
            use_type_invariant(self);
        }
        self.config
    }

    /// The number of idle objects.
    pub fn idle_len(&self) -> (r: usize)
        ensures
            r == self@.idle.len(),
            bounded(self@),
    {
        proof {
            use_type_invariant(self);
        }
        self.idle.len()
    }

    /// The number of objects that are checked out.
    pub fn checked_out(&self) -> (r: usize)
        ensures
            r == self@.checked_out,
            bounded(self@),
    {
        proof {
            use_type_invariant(self);
        }
        self.checked_out
    }

    /// Takes an idle object, or a place for a new one.
    pub fn begin_checkout(&mut self) -> (r: Checkout<T>)
        ensures
            (final(self)@, r) == checkout(old(self)@),
    {
        proof {
            use_type_invariant(&*self);
        }
        let config: PoolConfig = self.config;
        let checked_out: usize = self.checked_out;
        let mut idle: Vec<T> = Vec::new();
        std::mem::swap(&mut idle, &mut self.idle);
        let r: Checkout<T> = match idle.pop() {
            Some(object) => {
                self.checked_out = checked_out + 1;
                Checkout::Reused(object)
            },
            None => {
                if checked_out < config.max_pool_size {
                    self.checked_out = checked_out + 1;
                    Checkout::Create
                } else {
                    Checkout::Exhausted
                }
            },
        };
        self.idle = idle;
        r
    }

    /// Gives up a place that was taken for an object that could not be made.
    pub fn release(&mut self)
        ensures
            final(self)@ == released(old(self)@),
    {
        proof {
            use_type_invariant(&*self);
        }
        if self.checked_out > 0 {
            self.checked_out = self.checked_out - 1;
        }
    }

    /// Gives up a place if the object that was to take it could not be made, and hands on what
    /// came of making it.
    pub fn settle_checkout<E>(&mut self, made: Result<T, E>) -> (r: Result<T, E>)
        ensures
            r == made,
            final(self)@ == (if made is Ok {
                old(self)@
            } else {
                released(old(self)@)
            }),
    {
        if made.is_err() {
            self.release();
        }
        made
    }

    /// Takes back an object that was checked out.
    pub fn return_object(&mut self, object: T)
        ensures
            final(self)@ == returned(old(self)@, object),
    {
        proof {
            use_type_invariant(&*self);
        }
        if self.checked_out > 0 {
            let keep: bool = self.idle.len() < self.config.max_idle;
            self.checked_out = self.checked_out - 1;
            if keep {
                let mut idle: Vec<T> = Vec::new();
                std::mem::swap(&mut idle, &mut self.idle);
                idle.push(object);
                self.idle = idle;
            }
        }
    }

    /// Checks out an idle object, or one that `factory` makes. Where every place is taken the
    /// pool is exhausted; where `factory` fails the place it took is given up.
    pub fn checkout_with<F: FnOnce() -> Result<T, TransportError>>(&mut self, factory: F) -> (r:
        Result<T, TransportError>)
        requires
            factory.requires(()),
        ensures
            match checkout(old(self)@).1 {
                Checkout::Reused(object) => r == Ok::<T, TransportError>(object) && final(self)@
                    == checkout(old(self)@).0,
                Checkout::Create => factory.ensures((), r) && final(self)@ == (if r is Ok {
                    checkout(old(self)@).0
                } else {
                    old(self)@
                }),
                Checkout::Exhausted => final(self)@ == old(self)@ && (r matches Err(e) && e@
                    == (ErrorView::PoolExhausted {
                    limit: old(self)@.config.max_pool_size as nat,
                })),
            },
    {
        match self.begin_checkout() {
            Checkout::Reused(object) => Ok(object),
            Checkout::Create => {
                let made: Result<T, TransportError> = factory();
                self.settle_checkout(made)
            },
            Checkout::Exhausted => Err(
                TransportError::PoolExhausted { limit: self.config.max_pool_size },
            ),
        }
    }
}

// ---------------------------------------------------------------------------
// Laws
// ---------------------------------------------------------------------------

/// Every operation keeps a pool within its bounds, and its bounds as they are.
pub proof fn law_pool_stays_bounded<T>(v: PoolView<T>, object: T)
    requires
        bounded(v),
    ensures
        bounded(checkout(v).0),
        bounded(released(v)),
        bounded(returned(v, object)),
        checkout(v).0.config == v.config,
        released(v).config == v.config,
        returned(v, object).config == v.config,
{
}

/// A place that was taken for an object that could not be made is given back whole: the pool
/// is as it was before the checkout.
pub proof fn law_failed_checkout_rolls_back<T>(v: PoolView<T>)
    requires
        checkout(v).1 is Create,
    ensures
        released(checkout(v).0) == v,
{
}

/// An idle object is handed out before a new one is made, and an object that comes back from
/// where it was idle leaves the pool as it was.
pub proof fn law_idle_object_is_reused<T>(v: PoolView<T>)
    requires
        bounded(v),
        v.idle.len() > 0,
    ensures
        checkout(v).1 == Checkout::Reused(v.idle.last()),
        returned(checkout(v).0, v.idle.last()) == v,
{
    assert(v.idle.drop_last().push(v.idle.last()) =~= v.idle);
}

/// An object that comes back to a pool with room for it is what the next checkout hands out,
/// and the pool is then as it was before.
pub proof fn law_returned_object_is_next<T>(v: PoolView<T>, object: T)
    requires
        v.checked_out > 0,
        v.idle.len() < v.config.max_idle,
    ensures
        checkout(returned(v, object)) == (v, Checkout::Reused(object)),
{
    assert(v.idle.push(object).drop_last() =~= v.idle);
}

/// A pool is exhausted exactly where as many objects are checked out as it has places.
pub proof fn law_exhausted_means_full<T>(v: PoolView<T>)
    requires
        bounded(v),
    ensures
        checkout(v).1 is Exhausted <==> v.checked_out == v.config.max_pool_size,
        checkout(v).1 is Exhausted ==> checkout(v).0 == v,
{
}

/// Bounds are valid exactly where there is a place at all, and no more idle objects than
/// places. A pool is within them where it has no more idle objects than they allow, and no
/// more objects in all than places.
pub proof fn law_what_the_bounds_of_a_pool_are<T>(c: PoolConfig, v: PoolView<T>)
    ensures
        valid_config(c) <==> c.max_pool_size > 0 && c.max_idle <= c.max_pool_size,
        bounded(v) <==> v.config.max_pool_size > 0 && v.config.max_idle <= v.config.max_pool_size
            && v.idle.len() <= v.config.max_idle && v.idle.len() + v.checked_out
            <= v.config.max_pool_size,
{
}

/// A checkout takes the last idle object, where there is one, and counts it; else it takes a
/// place, where one is free, and counts that; else it changes nothing.
pub proof fn law_what_a_checkout_does<T>(v: PoolView<T>)
    ensures
        checkout(v).0.config == v.config,
        v.idle.len() > 0 ==> {
            &&& checkout(v).1 == Checkout::Reused(v.idle[v.idle.len() - 1])
            &&& checkout(v).0.idle == v.idle.take(v.idle.len() - 1)
            &&& checkout(v).0.checked_out == v.checked_out + 1
        },
        v.idle.len() == 0 && v.checked_out < v.config.max_pool_size ==> {
            &&& checkout(v).1 is Create
            &&& checkout(v).0.idle == v.idle
            &&& checkout(v).0.checked_out == v.checked_out + 1
        },
        v.idle.len() == 0 && v.checked_out >= v.config.max_pool_size ==> {
            &&& checkout(v).1 is Exhausted
            &&& checkout(v).0.idle == v.idle
            &&& checkout(v).0.checked_out == v.checked_out
        },
{
    if v.idle.len() > 0 {
        assert(v.idle.drop_last() =~= v.idle.take(v.idle.len() - 1));
    }
}

/// An object that comes back gives up its place and is kept, last, exactly where there is room
/// for one more idle object; a place that is released is given up alone. Where nothing is
/// checked out, nothing changes.
pub proof fn law_what_coming_back_does<T>(v: PoolView<T>, object: T)
    ensures
        returned(v, object).config == v.config,
        released(v).config == v.config,
        released(v).idle == v.idle,
        v.checked_out > 0 ==> {
            &&& released(v).checked_out == v.checked_out - 1
            &&& returned(v, object).checked_out == v.checked_out - 1
            &&& v.idle.len() < v.config.max_idle ==> returned(v, object).idle == v.idle.push(object)
            &&& v.idle.len() >= v.config.max_idle ==> returned(v, object).idle == v.idle
        },
        v.checked_out == 0 ==> released(v).checked_out == 0 && returned(v, object).checked_out == 0
            && returned(v, object).idle == v.idle,
{
}

} // verus!
