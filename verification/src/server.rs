pub mod general_server;
pub mod tcp;
pub mod udp;
