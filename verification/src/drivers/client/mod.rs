pub mod uart;
pub mod fb;
pub mod acpi;
pub mod thermal;
