//! Provisioning and teardown of an ECS test cluster, written as resumable state
//! machines. Each machine decides the next cloud or progress-record action from
//! its state and the outcome of the previous action; a driver performs the
//! actions and hands the outcomes back.
pub mod agent_error;
pub mod create;
pub mod destroy;
pub mod memo;
pub mod network;
pub mod protocol;
pub mod resources;
pub mod role;
