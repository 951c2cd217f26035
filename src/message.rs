//! Severity-tagged reports and the banners that decorate the main block.
use vstd::prelude::*;

verus! {

/// How loudly a report is delivered.
#[derive(Clone, Copy, Debug, PartialEq, Eq, Structural)]
pub enum Severity {
    Info,
    Warn,
    Error,
}

/// One report of a cycle, ready for the logging sink.
#[derive(Debug)]
pub struct Report {
    pub severity: Severity,
    pub text: String,
}

pub open spec fn memory_error_banner() -> Seq<char> {
    "\n!!! MEMORY USAGE AT CRITICAL THRESHOLD !!!\n"@
}

pub open spec fn cpu_error_banner() -> Seq<char> {
    "\n!!! CPU USAGE AT CRITICAL THRESHOLD !!!\n"@
}

pub open spec fn memory_warn_banner() -> Seq<char> {
    "\n!!! memory usage at dangerous threshold !!!\n"@
}

pub open spec fn cpu_warn_banner() -> Seq<char> {
    "\n!!! cpu usage at dangerous threshold !!!\n"@
}

/// The critical-memory banner followed by the main block.
pub fn memory_error_message(main_message: &str) -> (r: String)
    ensures
        r@ == memory_error_banner() + main_message@,
{
    String::from_str("\n!!! MEMORY USAGE AT CRITICAL THRESHOLD !!!\n").concat(main_message)
}

/// The critical-CPU banner followed by the main block.
pub fn cpu_error_message(main_message: &str) -> (r: String)
    ensures
        r@ == cpu_error_banner() + main_message@,
{
    String::from_str("\n!!! CPU USAGE AT CRITICAL THRESHOLD !!!\n").concat(main_message)
}

/// The dangerous-memory banner followed by the main block.
pub fn memory_warn_message(main_message: &str) -> (r: String)
    ensures
        r@ == memory_warn_banner() + main_message@,
{
    String::from_str("\n!!! memory usage at dangerous threshold !!!\n").concat(main_message)
}

/// The dangerous-CPU banner followed by the main block.
pub fn cpu_warn_message(main_message: &str) -> (r: String)
    ensures
        r@ == cpu_warn_banner() + main_message@,
{
    String::from_str("\n!!! cpu usage at dangerous threshold !!!\n").concat(main_message)
}

} // verus!
