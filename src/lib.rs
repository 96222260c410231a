//! Renders the sub-resource hierarchy of cloud control-plane resources
//! (load balancers, REST APIs, container services) as indented text lines.

pub mod text;
pub mod present;
pub mod alb;
pub mod apigateway;
pub mod ecs;
pub mod picker;
