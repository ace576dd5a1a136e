pub mod current_time;
