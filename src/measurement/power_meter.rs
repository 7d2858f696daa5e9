pub mod newportmodel835powermeter;
pub mod thorlabspm100a;
