//! The typed model of a device description: one module per entity, each with
//! its parser from a markup element and its encoder back to one, and the
//! algorithms that resolve a parsed model.

pub mod access;
pub mod addressblock;
pub mod bitrange;
pub mod clusterinfo;
pub mod copies;
pub mod cpu;
pub mod derivation;
pub mod device;
pub mod dimelement;
pub mod endian;
pub mod enumeratedvalue;
pub mod enumeratedvalues;
pub mod expand;
pub mod field;
pub mod fieldinfo;
pub mod interrupt;
pub mod modifiedwritevalues;
pub mod peripheral;
pub mod register;
pub mod registerinfo;
pub mod registerproperties;
pub mod usage;
pub mod writeconstraint;
