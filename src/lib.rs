pub mod cache;
pub mod cancel;
pub mod gc;
pub mod observer;
pub mod options;
pub mod query;
pub mod state;
pub mod time;

pub use cache::{CacheEvent, QueryCache};
pub use gc::{GarbageCollector, GcTime};
pub use observer::{next_id, ObserverKey, QueryObserver};
pub use options::{QueryOptions, ResourceOption};
pub use query::{Launch, Query, Subscription};
pub use state::{QueryData, QueryState};
pub use time::time_until_stale;
