//! Data shared by stores, engines, policies and the service.

pub mod id_order;
pub mod name_laws;
pub mod name_map;
pub mod record_laws;
pub mod request_laws;
pub mod resource;
pub mod task_id;
pub mod task_record;
pub mod task_request;

pub use name_map::NameMap;
pub use resource::ResourceCapacity;
pub use resource::ResourceRequest;
pub use resource::ResourceSnapshot;
pub use task_id::TaskId;
pub use task_record::AcceptOutcome;
pub use task_record::OwnerEpoch;
pub use task_record::StoreCapabilities;
pub use task_record::StoredTask;
pub use task_record::StoredTaskPage;
pub use task_record::TaskCursor;
pub use task_record::TaskPage;
pub use task_record::TaskQuery;
pub use task_record::TaskRecord;
pub use task_record::TaskState;
pub use task_record::TaskStateCounts;
pub use task_record::TaskStateKind;
pub use task_record::TaskStats;
pub use task_record::TaskSummary;
pub use task_record::TaskSummaryPage;
pub use task_record::TransitionCommand;
pub use task_record::checked_page_size;
pub use task_request::MAX_TASK_OUTPUT_SUMMARY_BYTES;
pub use task_request::MAX_TASK_PAYLOAD_BYTES;
pub use task_request::TaskOutput;
pub use task_request::TaskRequest;
pub use task_request::TaskRequestInfo;
pub use task_request::TaskRunError;
