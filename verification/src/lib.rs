//! Configuration and launch-command assembly for programs run inside an
//! isolated compatibility-runtime prefix: typed diagnostic-logging rules and
//! their delimited text encoding, environment and argument assembly for a
//! launch, and the terminate-all request.

pub mod debug;
pub mod prefix;
pub mod text;
