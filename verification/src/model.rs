//! The service record and the request bodies of the management API.

use vstd::prelude::*;

verus! {

/// Abstract view of an optional string.
pub open spec fn opt_view(o: Option<String>) -> Option<Seq<char>> {
    match o {
        Some(s) => Some(s@),
        None => None,
    }
}

/// Copies an optional string, keeping its contents.
pub fn clone_opt_string(o: &Option<String>) -> (r: Option<String>)
    ensures
        opt_view(r) == opt_view(*o),
{
    match o {
        Some(s) => Some(s.clone()),
        None => None,
    }
}

/// A service registered with the gateway. Time stamps are kept in their
/// textual form, as the storage layer renders them.
#[derive(Debug, PartialEq, Eq)]
pub struct SysServices {
    pub id: Option<String>,
    pub server_name: Option<String>,
    pub url: Option<String>,
    pub description: Option<String>,
    pub protocol: Option<String>,
    pub port: Option<u16>,
    pub path: Option<String>,
    pub is_active: Option<i32>,
    pub created_at: Option<String>,
    pub updated_at: Option<String>,
}

/// Mathematical model of a [`SysServices`] value.
pub struct ServiceRecord {
    pub id: Option<Seq<char>>,
    pub server_name: Option<Seq<char>>,
    pub url: Option<Seq<char>>,
    pub description: Option<Seq<char>>,
    pub protocol: Option<Seq<char>>,
    pub port: Option<u16>,
    pub path: Option<Seq<char>>,
    pub is_active: Option<i32>,
    pub created_at: Option<Seq<char>>,
    pub updated_at: Option<Seq<char>>,
}

impl View for SysServices {
    type V = ServiceRecord;

    open spec fn view(&self) -> ServiceRecord {
        ServiceRecord {
            id: opt_view(self.id),
            server_name: opt_view(self.server_name),
            url: opt_view(self.url),
            description: opt_view(self.description),
            protocol: opt_view(self.protocol),
            port: self.port,
            path: opt_view(self.path),
            is_active: self.is_active,
            created_at: opt_view(self.created_at),
            updated_at: opt_view(self.updated_at),
        }
    }
}

impl Clone for SysServices {
    fn clone(&self) -> (r: Self)
        ensures
            r@ == self@,
    {
        SysServices {
            id: clone_opt_string(&self.id),
            server_name: clone_opt_string(&self.server_name),
            url: clone_opt_string(&self.url),
            description: clone_opt_string(&self.description),
            protocol: clone_opt_string(&self.protocol),
            port: self.port,
            path: clone_opt_string(&self.path),
            is_active: self.is_active,
            created_at: clone_opt_string(&self.created_at),
            updated_at: clone_opt_string(&self.updated_at),
        }
    }
}

/// Body of a request that registers a service.
pub struct AddServiceReqVO {
    /// Name of the service, the first part of its cache key.
    pub server_name: Option<String>,
    /// Address of the service.
    pub url: Option<String>,
    pub description: Option<String>,
    /// Scheme used to reach the service, such as `http` or `https`.
    pub protocol: Option<String>,
    pub port: Option<u16>,
    /// Path prefix of the service, the second part of its cache key.
    pub path: Option<String>,
    /// 1 enables the service, 2 disables it.
    pub is_active: Option<i32>,
}

/// Body of a request that changes a service.
pub struct UpdateServiceReqVO {
    pub id: Option<String>,
    pub server_name: Option<String>,
    pub url: Option<String>,
    pub description: Option<String>,
    pub protocol: Option<String>,
    pub port: Option<u16>,
    pub path: Option<String>,
}

/// Body of a request that removes services.
pub struct DeleteServiceReqVO {
    pub ids: Option<Vec<String>>,
}

/// Body of a request for one page of services.
pub struct SelectServiceByPageReqVO {
    pub server_name: Option<String>,
    /// 1 enabled, 2 disabled, 0 all.
    pub is_active: Option<i32>,
    pub page_no: Option<u64>,
    pub page_size: Option<u64>,
}

/// Body of a request that enables or disables a service.
pub struct UpdateIsActive {
    pub id: Option<String>,
    /// 1 enables the service, 2 disables it.
    pub is_active: Option<i32>,
}

/// Settings of the gateway process.
pub struct ApplicationConfig {
    pub debug: bool,
    pub server_name: String,
    pub server_url: String,
    pub redis_url: String,
    pub redis_db: Option<u16>,
    pub database_url: String,
    pub log_dir: String,
    pub log_type: String,
    pub log_temp_size: String,
    pub log_chan_len: Option<usize>,
    pub log_pack_compress: String,
    pub log_rolling_type: String,
    pub log_level: String,
}

impl SysServices {
    /// The service described by a registration request: no id, no time stamps.
    pub fn from_add_request(arg: &AddServiceReqVO) -> (s: SysServices)
        ensures
            s@ == (ServiceRecord {
                id: None,
                server_name: opt_view(arg.server_name),
                url: opt_view(arg.url),
                description: opt_view(arg.description),
                protocol: opt_view(arg.protocol),
                port: arg.port,
                path: opt_view(arg.path),
                is_active: arg.is_active,
                created_at: None,
                updated_at: None,
            }),
    {
        SysServices {
            id: None,
            server_name: clone_opt_string(&arg.server_name),
            url: clone_opt_string(&arg.url),
            description: clone_opt_string(&arg.description),
            protocol: clone_opt_string(&arg.protocol),
            port: arg.port,
            path: clone_opt_string(&arg.path),
            is_active: arg.is_active,
            created_at: None,
            updated_at: None,
        }
    }

    /// The service described by a change request: no activity flag, no time stamps.
    pub fn from_update_request(arg: &UpdateServiceReqVO) -> (s: SysServices)
        ensures
            s@ == (ServiceRecord {
                id: opt_view(arg.id),
                server_name: opt_view(arg.server_name),
                url: opt_view(arg.url),
                description: opt_view(arg.description),
                protocol: opt_view(arg.protocol),
                port: arg.port,
                path: opt_view(arg.path),
                is_active: None,
                created_at: None,
                updated_at: None,
            }),
    {
        SysServices {
            id: clone_opt_string(&arg.id),
            server_name: clone_opt_string(&arg.server_name),
            url: clone_opt_string(&arg.url),
            description: clone_opt_string(&arg.description),
            protocol: clone_opt_string(&arg.protocol),
            port: arg.port,
            path: clone_opt_string(&arg.path),
            is_active: None,
            created_at: None,
            updated_at: None,
        }
    }
}

} // verus!
