/// Periodic update checking, modeled as a state machine: the embedding
/// shell performs each requested action (sleep, check, install, restart)
/// and feeds the outcome back as an event.
pub mod checker;
/// One-shot splash-to-main window handoff at application startup.
pub mod startup;
