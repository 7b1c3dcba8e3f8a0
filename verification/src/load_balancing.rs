//! Load balancing: what callers choose, and the driver's builder that it
//! comes to.
use vstd::prelude::*;
use vstd::string::*;
use vstd::utf8::{encode_utf8, valid_utf8};
use scylla::policies::load_balancing::{DefaultPolicyBuilder, LatencyAwarenessBuilder};
use crate::cstring::{c_text, is_readable, ptr_to_cstr_n};
use crate::driver::{
    latency_minimum_measurements, latency_options, latency_retry_period, latency_scale,
    latency_update_rate, new_latency_builder, new_policy_builder, policy_latency_awareness,
    policy_options, policy_permit_dc_failover, policy_prefer_datacenter, policy_prefer_datacenter_and_rack,
    policy_shuffle_replicas, policy_token_aware, PolicyOptions, PreferredNodes,
};
use crate::types::{answer, cass_bool_t, CassError};

verus! {

/// How nodes are chosen.
#[derive(Debug)]
pub enum LoadBalancingKind {
    RoundRobin,
    DcAware { local_dc: String },
    RackAware { local_dc: String, local_rack: String },
}

/// A [`LoadBalancingKind`] with texts in place of strings.
pub enum LoadBalancingKindView {
    RoundRobin,
    DcAware { local_dc: Seq<char> },
    RackAware { local_dc: Seq<char>, local_rack: Seq<char> },
}

impl View for LoadBalancingKind {
    type V = LoadBalancingKindView;

    open spec fn view(&self) -> LoadBalancingKindView {
        match self {
            LoadBalancingKind::RoundRobin => LoadBalancingKindView::RoundRobin,
            LoadBalancingKind::DcAware { local_dc } => LoadBalancingKindView::DcAware {
                local_dc: local_dc@,
            },
            LoadBalancingKind::RackAware { local_dc, local_rack } => LoadBalancingKindView::RackAware {
                local_dc: local_dc@,
                local_rack: local_rack@,
            },
        }
    }
}

impl Clone for LoadBalancingKind {
    fn clone(&self) -> (res: Self)
        ensures
            res@ == self@,
    {
        match self {
            LoadBalancingKind::RoundRobin => LoadBalancingKind::RoundRobin,
            LoadBalancingKind::DcAware { local_dc } => LoadBalancingKind::DcAware {
                local_dc: local_dc.clone(),
            },
            LoadBalancingKind::RackAware { local_dc, local_rack } => LoadBalancingKind::RackAware {
                local_dc: local_dc.clone(),
                local_rack: local_rack.clone(),
            },
        }
    }
}

/// What a builder of latency awareness was told. Times are in milliseconds.
pub struct LatencyAwarenessSettings {
    /// The bit pattern of the threshold, a floating point number.
    pub exclusion_threshold_bits: u64,
    pub scale_ms: u64,
    pub retry_period_ms: u64,
    pub update_rate_ms: u64,
    pub minimum_measurements: usize,
}

impl LatencyAwarenessSettings {
    /// The options that hold where none were set. The threshold is two.
    pub open spec fn initial() -> Self {
        LatencyAwarenessSettings {
            exclusion_threshold_bits: 0x4000_0000_0000_0000,
            scale_ms: 100,
            retry_period_ms: 10000,
            update_rate_ms: 100,
            minimum_measurements: 50,
        }
    }
}

/// The load balancing options of a cluster or of an execution profile.
#[derive(Debug)]
pub struct LoadBalancingConfig {
    pub token_awareness_enabled: bool,
    pub token_aware_shuffling_replicas_enabled: bool,
    /// `None` until a kind is chosen.
    pub load_balancing_kind: Option<LoadBalancingKind>,
    pub latency_awareness_enabled: bool,
    pub latency_awareness_builder: LatencyAwarenessBuilder,
}

/// A [`LoadBalancingConfig`] with texts in place of strings, and what the
/// builder of latency awareness was told in place of the builder.
pub struct LoadBalancingConfigView {
    pub token_awareness_enabled: bool,
    pub token_aware_shuffling_replicas_enabled: bool,
    pub load_balancing_kind: Option<LoadBalancingKindView>,
    pub latency_awareness_enabled: bool,
    pub latency_awareness_settings: LatencyAwarenessSettings,
}

impl View for LoadBalancingConfig {
    type V = LoadBalancingConfigView;

    open spec fn view(&self) -> LoadBalancingConfigView {
        LoadBalancingConfigView {
            token_awareness_enabled: self.token_awareness_enabled,
            token_aware_shuffling_replicas_enabled: self.token_aware_shuffling_replicas_enabled,
            load_balancing_kind: match self.load_balancing_kind {
                Some(kind) => Some(kind@),
                None => None,
            },
            latency_awareness_enabled: self.latency_awareness_enabled,
            latency_awareness_settings: latency_options(self.latency_awareness_builder),
        }
    }
}

impl LoadBalancingConfigView {
    /// The options before anything is set: token aware, with shuffled
    /// replicas, no kind chosen, latency not looked at and its options those
    /// of the driver.
    pub open spec fn initial() -> Self {
        LoadBalancingConfigView {
            token_awareness_enabled: true,
            token_aware_shuffling_replicas_enabled: true,
            load_balancing_kind: None,
            latency_awareness_enabled: false,
            latency_awareness_settings: LatencyAwarenessSettings::initial(),
        }
    }

    /// The scale of latency awareness is not zero.
    pub open spec fn wf(self) -> bool {
        self.latency_awareness_settings.scale_ms > 0
    }

    /// The kind in force: round robin where none was chosen.
    pub open spec fn effective_kind(self) -> LoadBalancingKindView {
        match self.load_balancing_kind {
            Some(kind) => kind,
            None => LoadBalancingKindView::RoundRobin,
        }
    }

    /// The options with the kind replaced, or as they are where no kind is
    /// given.
    pub open spec fn choose_kind(self, kind: Option<LoadBalancingKindView>) -> Self {
        match kind {
            Some(_) => LoadBalancingConfigView { load_balancing_kind: kind, ..self },
            None => self,
        }
    }

    /// The options that the driver's policy gets.
    pub open spec fn policy(self) -> PolicyOptions {
        PolicyOptions {
            preferred_nodes: match self.effective_kind() {
                LoadBalancingKindView::RoundRobin => PreferredNodes::Unnamed,
                LoadBalancingKindView::DcAware { local_dc } => PreferredNodes::Datacenter(local_dc),
                LoadBalancingKindView::RackAware {
                    local_dc,
                    local_rack,
                } => PreferredNodes::DatacenterAndRack(local_dc, local_rack),
            },
            token_aware: self.token_awareness_enabled,
            // Only a token aware policy is told whether to shuffle; the driver shuffles by default.
            shuffle_replicas: self.token_awareness_enabled
                ==> self.token_aware_shuffling_replicas_enabled,
            permit_dc_failover: !(self.effective_kind() is RoundRobin),
            latency_awareness: if self.latency_awareness_enabled {
                Some(self.latency_awareness_settings)
            } else {
                None
            },
        }
    }
}

impl Default for LoadBalancingConfig {
    fn default() -> (config: Self)
        ensures
            config@ == LoadBalancingConfigView::initial(),
    {
        LoadBalancingConfig {
            token_awareness_enabled: true,
            token_aware_shuffling_replicas_enabled: true,
            load_balancing_kind: None,
            latency_awareness_enabled: false,
            latency_awareness_builder: new_latency_builder(),
        }
    }
}

impl Clone for LoadBalancingConfig {
    fn clone(&self) -> (res: Self)
        ensures
            res@ == self@,
            res.token_awareness_enabled == self.token_awareness_enabled,
            res.token_aware_shuffling_replicas_enabled
                == self.token_aware_shuffling_replicas_enabled,
            res.latency_awareness_enabled == self.latency_awareness_enabled,
            latency_options(res.latency_awareness_builder) == latency_options(
                self.latency_awareness_builder,
            ),
    {
        LoadBalancingConfig {
            token_awareness_enabled: self.token_awareness_enabled,
            token_aware_shuffling_replicas_enabled: self.token_aware_shuffling_replicas_enabled,
            load_balancing_kind: match &self.load_balancing_kind {
                Some(kind) => Some(kind.clone()),
                None => None,
            },
            latency_awareness_enabled: self.latency_awareness_enabled,
            latency_awareness_builder: self.latency_awareness_builder.clone(),
        }
    }
}

impl LoadBalancingConfig {
    /// The driver's builder of the load balancing policy. The last step, from
    /// the builder to the policy, starts a background task and is left to the
    /// caller.
    pub fn build(self) -> (builder: DefaultPolicyBuilder)
        ensures
            policy_options(builder) == self@.policy(),
            policy_options(builder).preferred_nodes == match self.load_balancing_kind {
                Some(LoadBalancingKind::DcAware { local_dc }) => PreferredNodes::Datacenter(
                    local_dc@,
                ),
                Some(
                    LoadBalancingKind::RackAware { local_dc, local_rack },
                ) => PreferredNodes::DatacenterAndRack(local_dc@, local_rack@),
                _ => PreferredNodes::Unnamed,
            },
            policy_options(builder).permit_dc_failover <==> !(policy_options(
                builder,
            ).preferred_nodes is Unnamed),
            policy_options(builder).token_aware == self.token_awareness_enabled,
            self.token_awareness_enabled ==> policy_options(builder).shuffle_replicas
                == self.token_aware_shuffling_replicas_enabled,
            policy_options(builder).latency_awareness == if self.latency_awareness_enabled {
                Some(latency_options(self.latency_awareness_builder))
            } else {
                None
            },
    {
        // Round robin is chosen by default.
        let kind: LoadBalancingKind = match self.load_balancing_kind {
            Some(kind) => kind,
            None => LoadBalancingKind::RoundRobin,
        };

        let mut builder = policy_token_aware(new_policy_builder(), self.token_awareness_enabled);
        if self.token_awareness_enabled {
            // Replicas are shuffled only if token aware routing is enabled.
            builder =
            policy_shuffle_replicas(builder, self.token_aware_shuffling_replicas_enabled);
        }
        match kind {
            LoadBalancingKind::DcAware { local_dc } => {
                builder =
                policy_permit_dc_failover(policy_prefer_datacenter(builder, local_dc), true);
            },
            LoadBalancingKind::RackAware { local_dc, local_rack } => {
                builder =
                policy_permit_dc_failover(
                    policy_prefer_datacenter_and_rack(builder, local_dc, local_rack),
                    true,
                );
            },
            LoadBalancingKind::RoundRobin => {},
        }
        if self.latency_awareness_enabled {
            builder = policy_latency_awareness(builder, self.latency_awareness_builder);
        }
        builder
    }
}

/// Sets all options of latency awareness but the threshold, which `threshold`
/// has.
pub(crate) fn latency_awareness_builder(
    threshold: LatencyAwarenessBuilder,
    scale_ms: u64,
    retry_period_ms: u64,
    update_rate_ms: u64,
    minimum_measurements: usize,
) -> (builder: LatencyAwarenessBuilder)
    requires
        scale_ms > 0,
    ensures
        latency_options(builder) == (LatencyAwarenessSettings {
            exclusion_threshold_bits: latency_options(threshold).exclusion_threshold_bits,
            scale_ms,
            retry_period_ms,
            update_rate_ms,
            minimum_measurements,
        }),
{
    let builder = latency_scale(threshold, scale_ms);
    let builder = latency_retry_period(builder, retry_period_ms);
    let builder = latency_update_rate(builder, update_rate_ms);
    latency_minimum_measurements(builder, minimum_measurements)
}

/// The kind that [`set_load_balance_dc_aware_n`] chooses, if it accepts its
/// parameters: a name that is there and not empty, and zeros for what is
/// deprecated.
pub open spec fn dc_aware_kind(
    local_dc_raw: Option<&[u8]>,
    local_dc_length: int,
    used_hosts_per_remote_dc: u32,
    allow_remote_dcs_for_local_cl: cass_bool_t,
) -> Option<LoadBalancingKindView> {
    if local_dc_raw is Some && local_dc_length != 0 && used_hosts_per_remote_dc == 0
        && allow_remote_dcs_for_local_cl == 0 {
        Some(
            LoadBalancingKindView::DcAware { local_dc: c_text(local_dc_raw, local_dc_length)->0 },
        )
    } else {
        None
    }
}

/// The kind that [`set_load_balance_rack_aware_n`] chooses, if it accepts its
/// parameters: two names that are there, not empty and UTF-8.
pub open spec fn rack_aware_kind(
    local_dc_raw: Option<&[u8]>,
    local_dc_length: int,
    local_rack_raw: Option<&[u8]>,
    local_rack_length: int,
) -> Option<LoadBalancingKindView> {
    match (c_text(local_dc_raw, local_dc_length), c_text(local_rack_raw, local_rack_length)) {
        (Some(local_dc), Some(local_rack)) => if local_dc_length > 0 && local_rack_length > 0 {
            Some(LoadBalancingKindView::RackAware { local_dc, local_rack })
        } else {
            None
        },
        _ => None,
    }
}

/// Prefers the nodes of the datacenter `local_dc`. Nothing changes where the
/// parameters are refused: no name, an empty one, or a deprecated parameter
/// that is not zero.
pub fn set_load_balance_dc_aware_n(
    load_balancing_config: &mut LoadBalancingConfig,
    local_dc_raw: Option<&[u8]>,
    local_dc_length: usize,
    used_hosts_per_remote_dc: u32,
    allow_remote_dcs_for_local_cl: cass_bool_t,
) -> (res: CassError)
    requires
        is_readable(local_dc_raw, local_dc_length as int),
        dc_aware_kind(
            local_dc_raw,
            local_dc_length as int,
            used_hosts_per_remote_dc,
            allow_remote_dcs_for_local_cl,
        ) is Some ==> c_text(local_dc_raw, local_dc_length as int) is Some,
    ensures
        ({
            let kind = dc_aware_kind(
                local_dc_raw,
                local_dc_length as int,
                used_hosts_per_remote_dc,
                allow_remote_dcs_for_local_cl,
            );
            &&& res == answer(kind is Some)
            &&& final(load_balancing_config)@ == old(load_balancing_config)@.choose_kind(kind)
        }),
        res == CassError::CASS_OK <==> local_dc_raw is Some && local_dc_length > 0
            && used_hosts_per_remote_dc == 0 && allow_remote_dcs_for_local_cl == 0,
        res == CassError::CASS_OK ==> {
            &&& final(load_balancing_config).load_balancing_kind matches Some(
                LoadBalancingKind::DcAware { local_dc },
            )
            &&& encode_utf8(local_dc@) == local_dc_raw->0@.take(local_dc_length as int)
        },
{
    if local_dc_raw.is_none() || local_dc_length == 0 {
        return CassError::CASS_ERROR_LIB_BAD_PARAMS;
    }
    if used_hosts_per_remote_dc != 0 || allow_remote_dcs_for_local_cl != 0 {
        return CassError::CASS_ERROR_LIB_BAD_PARAMS;
    }
    let local_dc: String = ptr_to_cstr_n(local_dc_raw, local_dc_length).unwrap().to_owned();
    load_balancing_config.load_balancing_kind = Some(LoadBalancingKind::DcAware { local_dc });
    CassError::CASS_OK
}

/// Prefers the nodes of the rack `local_rack` in the datacenter `local_dc`.
/// Nothing changes where one of them is a NULL pointer, is empty or is not
/// UTF-8.
pub fn set_load_balance_rack_aware_n(
    load_balancing_config: &mut LoadBalancingConfig,
    local_dc_raw: Option<&[u8]>,
    local_dc_length: usize,
    local_rack_raw: Option<&[u8]>,
    local_rack_length: usize,
) -> (res: CassError)
    requires
        is_readable(local_dc_raw, local_dc_length as int),
        is_readable(local_rack_raw, local_rack_length as int),
    ensures
        ({
            let kind = rack_aware_kind(
                local_dc_raw,
                local_dc_length as int,
                local_rack_raw,
                local_rack_length as int,
            );
            &&& res == answer(kind is Some)
            &&& final(load_balancing_config)@ == old(load_balancing_config)@.choose_kind(kind)
        }),
        res == CassError::CASS_OK <==> {
            &&& local_dc_raw is Some
            &&& local_rack_raw is Some
            &&& local_dc_length > 0
            &&& local_rack_length > 0
            &&& valid_utf8(local_dc_raw->0@.take(local_dc_length as int))
            &&& valid_utf8(local_rack_raw->0@.take(local_rack_length as int))
        },
        res == CassError::CASS_OK ==> {
            &&& final(load_balancing_config).load_balancing_kind matches Some(
                LoadBalancingKind::RackAware { local_dc, local_rack },
            )
            &&& encode_utf8(local_dc@) == local_dc_raw->0@.take(local_dc_length as int)
            &&& encode_utf8(local_rack@) == local_rack_raw->0@.take(local_rack_length as int)
        },
{
    let dc_text = ptr_to_cstr_n(local_dc_raw, local_dc_length);
    let rack_text = ptr_to_cstr_n(local_rack_raw, local_rack_length);
    if local_dc_length > 0 && local_rack_length > 0 {
        if let (Some(dc), Some(rack)) = (dc_text, rack_text) {
            let local_dc: String = dc.to_owned();
            let local_rack: String = rack.to_owned();
            load_balancing_config.load_balancing_kind =
            Some(LoadBalancingKind::RackAware { local_dc, local_rack });
            return CassError::CASS_OK;
        }
    }
    CassError::CASS_ERROR_LIB_BAD_PARAMS
}

} // verus!
