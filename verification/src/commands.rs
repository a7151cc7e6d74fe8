pub mod new;
