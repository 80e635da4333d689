//! The settings of one deployment.
//!
//! A [`Config`] is built once, before the listener starts, and only read
//! afterwards: it has no method that changes it.

use vstd::prelude::*;
use crate::address::Address;
use crate::address::AddressError;
use crate::address::AddressModel;
use crate::address::address_of;
use crate::text::str_equal;

verus! {

/// The port to listen on unless another is given.
pub const DEFAULT_LISTEN_PORT: u16 = 20000;

/// The port to connect to unless another is given.
pub const DEFAULT_UPSTREAM_PORT: u16 = 20002;

/// The buffer size of a relay unless another is given.
pub const DEFAULT_BUFFER_SIZE: usize = 1024;

/// The number of worker threads unless another is given.
pub const DEFAULT_WORKER_COUNT: usize = 6;

/// How the bytes of one direction are moved.
#[derive(Clone, Copy, Debug, PartialEq, Eq, Structural)]
pub enum CopyStrategy {
    /// Two relays, each with a buffer of the configured size.
    GenericBuffered,
    /// Two relays, each a copy primitive that keeps its buffer to itself.
    WholeStream,
    /// One relay that copies both directions of the two connections at once.
    BidirectionalFastPath,
}

/// The strategy that the option value `name` stands for, if any.
pub open spec fn strategy_named(name: Seq<char>) -> Option<CopyStrategy> {
    if name == "generic-buffered"@ {
        Some(CopyStrategy::GenericBuffered)
    } else if name == "whole-stream"@ {
        Some(CopyStrategy::WholeStream)
    } else if name == "bidirectional-fast-path"@ {
        Some(CopyStrategy::BidirectionalFastPath)
    } else {
        None
    }
}

impl CopyStrategy {
    /// The strategy to run where the platform may lack the bidirectional
    /// primitive: without it, the fast path gives way to two buffered relays.
    pub open spec fn resolved(self, fast_path_available: bool) -> CopyStrategy {
        if self is BidirectionalFastPath && !fast_path_available {
            CopyStrategy::GenericBuffered
        } else {
            self
        }
    }

    /// Reads a strategy from the value of the `copy-strategy` option.
    pub fn parse(name: &str) -> (strategy: Option<CopyStrategy>)
        ensures
            strategy == strategy_named(name@),
    {
        if str_equal(name, "generic-buffered") {
            Some(CopyStrategy::GenericBuffered)
        } else if str_equal(name, "whole-stream") {
            Some(CopyStrategy::WholeStream)
        } else if str_equal(name, "bidirectional-fast-path") {
            Some(CopyStrategy::BidirectionalFastPath)
        } else {
            None
        }
    }

    /// The option value that stands for this strategy.
    pub fn name(self) -> (name: &'static str)
        ensures
            strategy_named(name@) == Some(self),
    {
        proof {
            reveal_strlit("generic-buffered");
            reveal_strlit("whole-stream");
            reveal_strlit("bidirectional-fast-path");
            assert("generic-buffered"@.len() == 16);
            assert("whole-stream"@.len() == 12);
            assert("bidirectional-fast-path"@.len() == 23);
        }
        match self {
            CopyStrategy::GenericBuffered => "generic-buffered",
            CopyStrategy::WholeStream => "whole-stream",
            CopyStrategy::BidirectionalFastPath => "bidirectional-fast-path",
        }
    }

    /// See [`CopyStrategy::resolved`].
    pub fn resolve(self, fast_path_available: bool) -> (strategy: CopyStrategy)
        ensures
            strategy == self.resolved(fast_path_available),
    {
        match self {
            CopyStrategy::BidirectionalFastPath => if fast_path_available {
                self
            } else {
                CopyStrategy::GenericBuffered
            },
            _ => self,
        }
    }
}

/// The threads that cooperative tasks are scheduled on.
#[derive(Clone, Copy, Debug, PartialEq, Eq, Structural)]
pub enum Runtime {
    /// All tasks share the calling thread.
    CurrentThread,
    /// Tasks are spread over a pool of this many worker threads.
    MultiThread { workers: usize },
}

/// The runtime for a worker count: a pool where more than one worker is asked
/// for, the calling thread otherwise.
pub open spec fn runtime_for(worker_count: usize) -> Runtime {
    if worker_count > 1 {
        Runtime::MultiThread { workers: worker_count }
    } else {
        Runtime::CurrentThread
    }
}

/// Why a set of settings was turned down.
#[derive(Clone, Copy, Debug, PartialEq, Eq, Structural)]
pub enum ConfigError {
    /// The listen address is no address.
    InvalidListen(AddressError),
    /// The upstream address is no address.
    InvalidUpstream(AddressError),
    /// The buffer size is zero.
    ZeroBufferSize,
    /// The worker count is zero.
    ZeroWorkerCount,
}

/// The settings as plain values.
pub struct ConfigModel {
    /// The address to listen on.
    pub listen: AddressModel,
    /// The address to connect to for each accepted connection.
    pub upstream: AddressModel,
    /// How bytes are moved.
    pub strategy: CopyStrategy,
    /// The size of each relay's buffer, in bytes.
    pub buffer_size: usize,
    /// The number of worker threads.
    pub worker_count: usize,
}

impl ConfigModel {
    /// Both sizes are positive.
    pub open spec fn valid(self) -> bool {
        &&& self.buffer_size > 0
        &&& self.worker_count > 0
    }

    /// What the given option values say as settings. The listen address is
    /// looked at first, then the upstream address, then the buffer size,
    /// then the worker count; the first that is turned down decides.
    pub open spec fn checked(
        listen: Seq<char>,
        upstream: Seq<char>,
        strategy: CopyStrategy,
        buffer_size: usize,
        worker_count: usize,
    ) -> Result<ConfigModel, ConfigError> {
        match (address_of(listen), address_of(upstream)) {
            (Err(error), _) => Err(ConfigError::InvalidListen(error)),
            (Ok(_), Err(error)) => Err(ConfigError::InvalidUpstream(error)),
            (Ok(listen), Ok(upstream)) => if buffer_size == 0 {
                Err(ConfigError::ZeroBufferSize)
            } else if worker_count == 0 {
                Err(ConfigError::ZeroWorkerCount)
            } else {
                Ok(ConfigModel { listen, upstream, strategy, buffer_size, worker_count })
            },
        }
    }

    /// The settings used where none are given: both addresses on this
    /// machine.
    pub open spec fn standard() -> ConfigModel {
        ConfigModel {
            listen: AddressModel { host: "127.0.0.1"@, port: DEFAULT_LISTEN_PORT },
            upstream: AddressModel { host: "127.0.0.1"@, port: DEFAULT_UPSTREAM_PORT },
            strategy: CopyStrategy::GenericBuffered,
            buffer_size: DEFAULT_BUFFER_SIZE,
            worker_count: DEFAULT_WORKER_COUNT,
        }
    }
}

/// The settings of one deployment.
pub struct Config {
    listen: Address,
    upstream: Address,
    strategy: CopyStrategy,
    buffer_size: usize,
    worker_count: usize,
}

impl View for Config {
    type V = ConfigModel;

    closed spec fn view(&self) -> ConfigModel {
        ConfigModel {
            listen: self.listen@,
            upstream: self.upstream@,
            strategy: self.strategy,
            buffer_size: self.buffer_size,
            worker_count: self.worker_count,
        }
    }
}

impl Config {
    /// The validity of the settings.
    pub open spec fn wf(&self) -> bool {
        self@.valid()
    }

    /// Checks the option values and keeps them as settings.
    pub fn new(
        listen: &str,
        upstream: &str,
        strategy: CopyStrategy,
        buffer_size: usize,
        worker_count: usize,
    ) -> (result: Result<Config, ConfigError>)
        ensures
            match result {
                Ok(config) => config.wf() && ConfigModel::checked(
                    listen@,
                    upstream@,
                    strategy,
                    buffer_size,
                    worker_count,
                ) == Ok::<ConfigModel, ConfigError>(config@),
                Err(error) => ConfigModel::checked(
                    listen@,
                    upstream@,
                    strategy,
                    buffer_size,
                    worker_count,
                ) == Err::<ConfigModel, ConfigError>(error),
            },
    {
        let listen = match Address::parse(listen) {
            Ok(address) => address,
            Err(error) => {
                return Err(ConfigError::InvalidListen(error));
            },
        };
        let upstream = match Address::parse(upstream) {
            Ok(address) => address,
            Err(error) => {
                return Err(ConfigError::InvalidUpstream(error));
            },
        };
        if buffer_size == 0 {
            Err(ConfigError::ZeroBufferSize)
        } else if worker_count == 0 {
            Err(ConfigError::ZeroWorkerCount)
        } else {
            Ok(Config { listen, upstream, strategy, buffer_size, worker_count })
        }
    }

    /// The address to listen on.
    pub fn listen(&self) -> (address: &Address)
        ensures
            address@ == self@.listen,
    {
        &self.listen
    }

    /// The address to connect to for each accepted connection.
    pub fn upstream(&self) -> (address: &Address)
        ensures
            address@ == self@.upstream,
    {
        &self.upstream
    }

    /// How bytes are moved.
    pub fn strategy(&self) -> (strategy: CopyStrategy)
        ensures
            strategy == self@.strategy,
    {
        self.strategy
    }

    /// The size of each relay's buffer.
    pub fn buffer_size(&self) -> (size: usize)
        ensures
            size == self@.buffer_size,
    {
        self.buffer_size
    }

    /// The number of worker threads.
    pub fn worker_count(&self) -> (count: usize)
        ensures
            count == self@.worker_count,
    {
        self.worker_count
    }

    /// The runtime that the worker count asks for.
    pub fn runtime(&self) -> (runtime: Runtime)
        ensures
            runtime == runtime_for(self@.worker_count),
    {
        if self.worker_count > 1 {
            Runtime::MultiThread { workers: self.worker_count }
        } else {
            Runtime::CurrentThread
        }
    }
}

impl Default for Config {
    /// The standard settings.
    fn default() -> (config: Config)
        ensures
            config.wf(),
            config@ == ConfigModel::standard(),
    {
        Config {
            listen: Address::loopback(DEFAULT_LISTEN_PORT),
            upstream: Address::loopback(DEFAULT_UPSTREAM_PORT),
            strategy: CopyStrategy::GenericBuffered,
            buffer_size: DEFAULT_BUFFER_SIZE,
            worker_count: DEFAULT_WORKER_COUNT,
        }
    }
}

} // verus!
