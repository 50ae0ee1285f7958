pub mod my_profile;
