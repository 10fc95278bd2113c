use vstd::prelude::*;
use crate::watch::UpsStatusSpecs;

verus! {

/// Connection settings for the NUT server, and what to do with it.
#[derive(Debug)]
pub struct Top {
    pub nut_host: String,
    pub nut_host_port: u16,
    pub nut_user: String,
    pub nut_user_pass: String,
    pub command: SubCommand,
}

/// The two modes of the program.
#[derive(Debug)]
pub enum SubCommand {
    /// Watch one UPS and report its changes.
    Watch(NotifyArgs),
    /// List the UPS devices and their variables once.
    ListVars(ListArgs),
}

/// Settings of the listing mode (it has none).
#[derive(Debug)]
pub struct ListArgs {}

/// Settings of the watching mode.
#[derive(Debug)]
pub struct NotifyArgs {
    pub gotify_url: String,
    pub gotify_token: String,
    pub ups_name: String,
    pub nut_polling_secs: u64,
    pub ups_variable: String,
    pub discharge_status_spec: String,
    pub charge_status_spec: String,
    pub online_status_spec: String,
    pub verbose_online_status: bool,
    pub websocket_bind_ip: String,
    pub websocket_bind_port: String,
}

/// Where the live status feed listens.
#[derive(Debug)]
pub struct WsServerOpts {
    pub websocket_bind_ip: String,
    pub websocket_bind_port: String,
}

/// The settings that a command runs with.
pub trait CommandArgs<T> {
    fn get_args(self) -> T;
}

impl CommandArgs<NotifyArgs> for NotifyArgs {
    fn get_args(self) -> (r: NotifyArgs)
        ensures
            r == self,
    {
        self
    }
}

impl CommandArgs<ListArgs> for ListArgs {
    fn get_args(self) -> (r: ListArgs)
        ensures
            r == self,
    {
        self
    }
}

impl NotifyArgs {
    /// The settings of the poll loop and of status classification.
    pub fn status_specs(&self) -> (r: UpsStatusSpecs)
        ensures
            r.online_status_spec@ == self.online_status_spec@,
            r.discharge_status_spec@ == self.discharge_status_spec@,
            r.charge_status_spec@ == self.charge_status_spec@,
            r.ups_name@ == self.ups_name@,
            r.ups_variable@ == self.ups_variable@,
            r.nut_polling_secs == self.nut_polling_secs,
            r.verbose_online_status == self.verbose_online_status,
    {
        UpsStatusSpecs {
            online_status_spec: self.online_status_spec.clone(),
            discharge_status_spec: self.discharge_status_spec.clone(),
            charge_status_spec: self.charge_status_spec.clone(),
            ups_name: self.ups_name.clone(),
            ups_variable: self.ups_variable.clone(),
            nut_polling_secs: self.nut_polling_secs,
            verbose_online_status: self.verbose_online_status,
        }
    }

    /// The settings of the live status feed.
    pub fn server_opts(&self) -> (r: WsServerOpts)
        ensures
            r.websocket_bind_ip@ == self.websocket_bind_ip@,
            r.websocket_bind_port@ == self.websocket_bind_port@,
    {
        WsServerOpts {
            websocket_bind_ip: self.websocket_bind_ip.clone(),
            websocket_bind_port: self.websocket_bind_port.clone(),
        }
    }
}

impl WsServerOpts {
    /// The address to bind, as `ip:port`.
    pub fn bind_address(&self) -> (r: String)
        ensures
            r@ == self.websocket_bind_ip@ + ":"@ + self.websocket_bind_port@,
    {
        let mut address = self.websocket_bind_ip.clone();
        address.append(":");
        address.append(self.websocket_bind_port.as_str());
        address
    }
}

} // verus!
