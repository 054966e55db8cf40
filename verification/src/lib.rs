pub mod accountant;
pub mod market;
pub mod merchant;
pub mod sniffer;
pub mod trader;
