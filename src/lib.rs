pub mod cpu;
pub mod error;
pub mod instr;
pub mod keypad;
pub mod laws;
pub mod machine;
pub mod memory;
pub mod screen;
pub mod timer;
