//! Explanations of on-chain smart-contract functions, kept in a store keyed by
//! generated identifiers, and the pipeline that turns an on-chain package's
//! bytecode modules into decompiler jobs and gathers their output.

pub mod address;
pub mod decompile;
pub mod model;
pub mod network;
pub mod object_id;
pub mod service;
pub mod store;
pub mod text;

pub use address::{Address, AddressError, validate_sui_id};
pub use decompile::{
    DecodeError, ModuleJob, RevelaRequest, RevelaResponse, collect_outputs, decode_module_map,
    module_scratch_path, rpc_request_body, rpc_url,
};
pub use model::{CreateExplainationDto, Explaination, FieldError};
pub use network::{NetworkError, SuiNetwork};
pub use object_id::parse_object_id;
pub use service::{ExplainationService, ServiceError};
pub use store::{Database, DeleteResult, StoreError, UpdateResult};
