//! The provider's data: the answer envelope, the record it carries and the
//! payload of an update, each with its mathematical model.

use vstd::prelude::*;
use vstd::string::StringExecFns;

verus! {

/// The address-echo endpoint: a plain `GET` answers with the caller's public
/// address as text.
pub const PUBLIC_IP_ENDPOINT: &'static str = "https://checkip.amazonaws.com";

/// Where the provider keeps its zones.
pub const ZONES_ENDPOINT: &'static str = "https://api.cloudflare.com/client/v4/zones/";

/// The path segment between a zone and one of its records.
pub const RECORDS_SEGMENT: &'static str = "/dns_records/";

/// The address of one record of one zone: the record is fetched with a `GET`
/// and updated with a `POST` to it.
pub open spec fn record_url_text(zone_id: Seq<char>, dns_record_id: Seq<char>) -> Seq<char> {
    ZONES_ENDPOINT@ + zone_id + RECORDS_SEGMENT@ + dns_record_id
}

/// The address of the record `dns_record_id` of the zone `zone_id`.
pub fn record_url(zone_id: &str, dns_record_id: &str) -> (url: String)
    ensures
        url@ == record_url_text(zone_id@, dns_record_id@),
{
    let mut url = ZONES_ENDPOINT.to_owned();
    url.append(zone_id);
    url.append(RECORDS_SEGMENT);
    url.append(dns_record_id);
    url
}

/// The envelope round every answer of the provider.
#[derive(Default, Debug, Clone, PartialEq)]
pub struct CloudflareResponse<T> {
    pub result: T,
    pub success: bool,
    pub errors: Vec<CloudflareError>,
    pub messages: Vec<String>,
}

/// One error entry of an envelope.
#[derive(Default, Debug, Clone, PartialEq)]
pub struct CloudflareError {
    pub code: i64,
    pub message: String,
}

/// The payload of an update: the fields of a record that are sent back.
#[derive(Default, Debug, Clone, PartialEq)]
pub struct CloudflareDnsRecord {
    pub dns_type: String,
    pub name: String,
    pub content: String,
    pub ttl: i64,
    pub proxied: bool,
}

/// A record as the provider reports it, metadata included.
#[derive(Default, Debug, Clone, PartialEq)]
pub struct CloudflareDnsResult {
    pub id: String,
    pub zone_id: String,
    pub zone_name: String,
    pub name: String,
    pub dns_type: String,
    pub content: String,
    pub proxiable: bool,
    pub proxied: bool,
    pub ttl: i64,
    pub locked: bool,
    pub meta: Meta,
    pub created_on: String,
    pub modified_on: String,
}

/// Provider metadata of a record.
#[derive(Default, Debug, Clone, PartialEq)]
pub struct Meta {
    pub auto_added: bool,
    pub managed_by_apps: bool,
    pub managed_by_argo_tunnel: bool,
    pub source: String,
}

/// Model of `CloudflareResponse`.
pub ghost struct ResponseModel<R> {
    pub result: R,
    pub success: bool,
    pub errors: Seq<ErrorModel>,
    pub messages: Seq<Seq<char>>,
}

/// Model of `CloudflareError`.
pub ghost struct ErrorModel {
    pub code: i64,
    pub message: Seq<char>,
}

/// Model of `CloudflareDnsRecord`.
pub ghost struct DnsRecordModel {
    pub dns_type: Seq<char>,
    pub name: Seq<char>,
    pub content: Seq<char>,
    pub ttl: i64,
    pub proxied: bool,
}

/// Model of `CloudflareDnsResult`.
pub ghost struct DnsResultModel {
    pub id: Seq<char>,
    pub zone_id: Seq<char>,
    pub zone_name: Seq<char>,
    pub name: Seq<char>,
    pub dns_type: Seq<char>,
    pub content: Seq<char>,
    pub proxiable: bool,
    pub proxied: bool,
    pub ttl: i64,
    pub locked: bool,
    pub meta: MetaModel,
    pub created_on: Seq<char>,
    pub modified_on: Seq<char>,
}

/// Model of `Meta`.
pub ghost struct MetaModel {
    pub auto_added: bool,
    pub managed_by_apps: bool,
    pub managed_by_argo_tunnel: bool,
    pub source: Seq<char>,
}

impl<T: DeepView> DeepView for CloudflareResponse<T> {
    type V = ResponseModel<T::V>;

    open spec fn deep_view(&self) -> ResponseModel<T::V> {
        ResponseModel {
            result: self.result.deep_view(),
            success: self.success,
            errors: self.errors.deep_view(),
            messages: self.messages.deep_view(),
        }
    }
}

impl DeepView for CloudflareError {
    type V = ErrorModel;

    open spec fn deep_view(&self) -> ErrorModel {
        ErrorModel { code: self.code, message: self.message@ }
    }
}

impl DeepView for CloudflareDnsRecord {
    type V = DnsRecordModel;

    open spec fn deep_view(&self) -> DnsRecordModel {
        DnsRecordModel {
            dns_type: self.dns_type@,
            name: self.name@,
            content: self.content@,
            ttl: self.ttl,
            proxied: self.proxied,
        }
    }
}

impl DeepView for CloudflareDnsResult {
    type V = DnsResultModel;

    open spec fn deep_view(&self) -> DnsResultModel {
        DnsResultModel {
            id: self.id@,
            zone_id: self.zone_id@,
            zone_name: self.zone_name@,
            name: self.name@,
            dns_type: self.dns_type@,
            content: self.content@,
            proxiable: self.proxiable,
            proxied: self.proxied,
            ttl: self.ttl,
            locked: self.locked,
            meta: self.meta.deep_view(),
            created_on: self.created_on@,
            modified_on: self.modified_on@,
        }
    }
}

impl DeepView for Meta {
    type V = MetaModel;

    open spec fn deep_view(&self) -> MetaModel {
        MetaModel {
            auto_added: self.auto_added,
            managed_by_apps: self.managed_by_apps,
            managed_by_argo_tunnel: self.managed_by_argo_tunnel,
            source: self.source@,
        }
    }
}

} // verus!
