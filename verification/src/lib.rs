pub mod addressing;
pub mod alu;
pub mod bus;
pub mod cpu;
pub mod cycles;
pub mod isa;
pub mod laws;
pub mod machine;
pub mod opcodes;
pub mod semantics;
pub mod trace;
