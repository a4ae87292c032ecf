#![allow(unused_imports)]
pub mod backend;
pub mod bootstrap;
pub mod cluster_bootstrap;
pub mod cluster_finalize;
pub mod cluster_finalize_laws;
pub mod cluster_job;
pub mod cluster_objects;
pub mod cluster_reconcile;
pub mod condition_laws;
pub mod conditions;
pub mod error;
pub mod inherit;
pub mod inherit_messages;
pub mod instant;
pub mod labels;
pub mod lists;
pub mod maintenance_conditions;
pub mod maintenance_job;
pub mod maintenance_manual;
pub mod maintenance_names;
pub mod maintenance_reconcile;
pub mod maintenance_schedule;
pub mod mover_security;
pub mod names;
pub mod notes;
pub mod pods;
pub mod quote;
pub mod rbac;
pub mod security;
pub mod seed;
pub mod seed_arm;
pub mod seed_laws;
pub mod seed_messages;
pub mod seed_run;
pub mod selector;
pub mod status;
pub mod text;
pub mod work_spec;
