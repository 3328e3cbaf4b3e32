//! Verified core of the GBX Game Boy emulator: CPU register file, ALU,
//! memory bus, timers, PPU state machine and the service-facing types.

pub mod bits;
pub mod exec;
pub mod exec_simd;
pub mod bus;
pub mod mmu;
pub mod bus_simd;
pub mod cpu;
pub mod timers;
pub mod ppu_stub;
pub mod render;
pub mod gb_core;
pub mod instr;
pub mod state;
pub mod boot;
pub mod instance;
pub mod service_abi;
pub mod health;
pub mod inspector_vm;
pub mod schema;
pub mod codecs;
pub mod service_queue;
pub mod kernel;
pub mod services;
pub mod world;
pub mod hub;
pub mod report;
pub mod fabric;
pub mod laws;
pub mod peripheral_laws;
