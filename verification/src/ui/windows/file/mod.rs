pub mod preferences;
