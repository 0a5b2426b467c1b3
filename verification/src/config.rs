//! Limits of the service: how many connections the pool may hold, how many
//! customers a page carries and how many pages may wait in a stream.

use crate::controller::cliente::CLIENTE_PAGE_SIZE;
use crate::service::db::MAX_DATABASE_CONNECTIONS;
use crate::service::stream::CHANNEL_CAPACITY;
use vstd::prelude::*;

verus! {

/// The three limits of the service. Each of them is at least 1.
#[derive(Clone, Copy, Debug)]
pub struct Config {
    pool_size: u32,
    page_size: i64,
    channel_capacity: usize,
}

/// The mathematical content of a [`Config`].
pub struct ConfigView {
    pub pool_size: int,
    pub page_size: int,
    pub channel_capacity: int,
}

impl ConfigView {
    /// All three limits are positive.
    pub open spec fn valid(self) -> bool {
        &&& self.pool_size >= 1
        &&& self.page_size >= 1
        &&& self.channel_capacity >= 1
    }
}

impl View for Config {
    type V = ConfigView;

    closed spec fn view(&self) -> ConfigView {
        ConfigView {
            pool_size: self.pool_size as int,
            page_size: self.page_size as int,
            channel_capacity: self.channel_capacity as int,
        }
    }
}

impl Config {
    #[verifier::type_invariant]
    spec fn inv(self) -> bool {
        self@.valid()
    }

    /// A configuration with the given limits, or `None` if one of them is
    /// below 1.
    pub fn new(pool_size: u32, page_size: i64, channel_capacity: usize) -> (r: Option<Config>)
        ensures
            r is Some <==> pool_size >= 1 && page_size >= 1 && channel_capacity >= 1,
            r matches Some(c) ==> c@ == (ConfigView {
                pool_size: pool_size as int,
                page_size: page_size as int,
                channel_capacity: channel_capacity as int,
            }),
    {
        if pool_size >= 1 && page_size >= 1 && channel_capacity >= 1 {
            Some(Config { pool_size, page_size, channel_capacity })
        } else {
            None
        }
    }

    /// Largest number of pooled connections.
    pub fn pool_size(&self) -> (r: u32)
        ensures
            r == self@.pool_size,
            r >= 1,
    {
        proof {
            use_type_invariant(self);
        }
        self.pool_size
    }

    /// Largest number of customers on a page.
    pub fn page_size(&self) -> (r: i64)
        ensures
            r == self@.page_size,
            r >= 1,
    {
        proof {
            use_type_invariant(self);
        }
        self.page_size
    }

    /// Number of pages a stream buffers.
    pub fn channel_capacity(&self) -> (r: usize)
        ensures
            r == self@.channel_capacity,
            r >= 1,
    {
        proof {
            use_type_invariant(self);
        }
        self.channel_capacity
    }
}

impl Default for Config {
    /// The limits the service runs with unless told otherwise: 15
    /// connections, 100 customers a page, 128 buffered pages.
    fn default() -> (r: Config)
        ensures
            r@ == (ConfigView { pool_size: 15, page_size: 100, channel_capacity: 128 }),
    {
        Config {
            pool_size: MAX_DATABASE_CONNECTIONS,
            page_size: CLIENTE_PAGE_SIZE,
            channel_capacity: CHANNEL_CAPACITY,
        }
    }
}

} // verus!
