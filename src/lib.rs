//! WAL receiver core: choosing the safekeeper to stream WAL from, deciding
//! per timeline which background tasks run, and supervising those tasks.
pub mod broker;
pub mod manager;
pub mod request;
pub mod selector;
pub mod snapshot;
pub mod supervisor;
pub mod watcher;

pub use broker::{BrokerClientSlot, BrokerInitError, get_etcd_client, is_etcd_client_initialized};
pub use manager::{Action, ConnectionManager, TimelineEntry};
pub use selector::{ActiveSource, Decision, SelectionPolicy, select};
pub use snapshot::{SafekeeperInfo, TimelineSnapshot};
pub use supervisor::{ChannelSignal, ObserveStep, TaskError, TaskEvent, TaskExit, TaskMonitor, TaskStateUpdate};
pub use watcher::{BrokerWatcher, PollPolicy, StreamProgress, WatchStep};
