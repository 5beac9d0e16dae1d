pub mod authenticate;
