pub mod bytes;
pub mod dispatcher;
pub mod error_handler;
pub mod events_mask;
pub mod hyperthread;
pub mod map_reader;
pub mod memory_ring_storage;
pub mod messages;
pub mod metadata;
pub mod metrics;
pub mod min_tracker;
pub mod ring;
pub mod rows;
pub mod mux_frame;
pub mod parquet_writer;
pub mod perf_to_timeslot;
pub mod reader;
pub mod supervisor;
pub mod sync_timer;
pub mod task_metadata;
pub mod task_tracker;
pub mod timeslot_data;
pub mod timeslot_tracker;
pub mod ring_reader;
