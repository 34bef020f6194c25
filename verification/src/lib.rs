//! Logic of a desktop panel for local WordPress development: the project model,
//! the text formats it reads and writes (wp-config, nginx vhosts, `/proc/net/tcp`,
//! dnsmasq and `/etc/hosts` snippets), and the decisions made around the shared
//! Docker services, snapshots, clones and git worktree projects.

pub mod paths;
pub mod text;
pub mod order;
pub mod clock;
pub mod places;
pub mod config;
pub mod nginx;
pub mod cloudflare;
pub mod ids;
pub mod slots;
pub mod worktree;
pub mod clone;
pub mod wordpress;
pub mod github;
pub mod dumplog;
pub mod netcheck;
pub mod groups;
pub mod domain;
pub mod docker;
pub mod logs;
pub mod ssl;
pub mod snapshot;
pub mod migrate;
pub mod localwp;
pub mod backup;
pub mod registry;
pub mod system;
pub mod php;
pub mod wpcli;
pub mod progress;
pub mod cli;
pub mod autologin;
