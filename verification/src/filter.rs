//! Per-endpoint message filtering by message id, source component id and
//! source system id, for incoming and outgoing traffic.
//!
//! For each criterion an allow list (when non-empty, only listed values
//! pass) and a block list (listed values are dropped) apply; a value in
//! both lists is dropped, so a broad allow list can carry exceptions.

use crate::mavlink_utils::MavHeader;
use ahash::AHashSet;
use vstd::prelude::*;

verus! {

/// The hash set of the `ahash` crate, used for the filter lists.
#[verifier::external_type_specification]
#[verifier::external_body]
#[verifier::reject_recursive_types(T)]
#[verifier::reject_recursive_types(S)]
pub struct ExAHashSet<T, S>(ahash::AHashSet<T, S>);

/// The hash builder of the `ahash` crate (default parameter of `AHashSet`).
#[verifier::external_type_specification]
#[verifier::external_body]
pub struct ExAhashRandomState(ahash::RandomState);

/// The message ids held by an `AHashSet<u32>`.
pub uninterp spec fn msg_id_items(s: AHashSet<u32>) -> Set<u32>;

/// The ids held by an `AHashSet<u8>`.
pub uninterp spec fn byte_id_items(s: AHashSet<u8>) -> Set<u8>;

/// `AHashSet::new`: a set that holds nothing.
#[verifier::external_body]
pub(crate) fn msg_id_set_new() -> (s: AHashSet<u32>)
    ensures
        msg_id_items(s) == Set::<u32>::empty(),
{
    AHashSet::new()
}

/// `HashSet::contains` (reached through `AHashSet`'s deref): membership of
/// `id` in the set.
#[verifier::external_body]
pub(crate) fn msg_id_set_contains(s: &AHashSet<u32>, id: u32) -> (r: bool)
    ensures
        r == msg_id_items(*s).contains(id),
{
    s.contains(&id)
}

/// `HashSet::is_empty` (reached through `AHashSet`'s deref).
#[verifier::external_body]
pub(crate) fn msg_id_set_is_empty(s: &AHashSet<u32>) -> (r: bool)
    ensures
        r == (msg_id_items(*s) == Set::<u32>::empty()),
{
    s.is_empty()
}

/// `HashSet::insert` (reached through `AHashSet`'s deref): afterwards the
/// set holds what it held and `id`.
#[verifier::external_body]
pub(crate) fn msg_id_set_insert(s: &mut AHashSet<u32>, id: u32)
    ensures
        msg_id_items(*final(s)) == msg_id_items(*old(s)).insert(id),
{
    s.insert(id);
}

/// `HashSet::iter` collected into a vector: every member exactly once, in
/// the order the set walks them (which the source leaves unspecified).
#[verifier::external_body]
pub(crate) fn msg_id_set_to_vec(s: &AHashSet<u32>) -> (v: Vec<u32>)
    ensures
        v@.to_set() == msg_id_items(*s),
        v@.no_duplicates(),
{
    s.iter().copied().collect()
}

/// `AHashSet::clone`: a set holding the same ids.
#[verifier::external_body]
pub(crate) fn msg_id_set_clone(s: &AHashSet<u32>) -> (c: AHashSet<u32>)
    ensures
        msg_id_items(c) == msg_id_items(*s),
{
    s.clone()
}

/// `AHashSet::clone` for `u8` ids.
#[verifier::external_body]
pub(crate) fn byte_id_set_clone(s: &AHashSet<u8>) -> (c: AHashSet<u8>)
    ensures
        byte_id_items(c) == byte_id_items(*s),
{
    s.clone()
}

/// `AHashSet::new` for `u8` ids.
#[verifier::external_body]
pub(crate) fn byte_id_set_new() -> (s: AHashSet<u8>)
    ensures
        byte_id_items(s) == Set::<u8>::empty(),
{
    AHashSet::new()
}

/// `HashSet::contains` for `u8` ids.
#[verifier::external_body]
pub(crate) fn byte_id_set_contains(s: &AHashSet<u8>, id: u8) -> (r: bool)
    ensures
        r == byte_id_items(*s).contains(id),
{
    s.contains(&id)
}

/// `HashSet::is_empty` for `u8` ids.
#[verifier::external_body]
pub(crate) fn byte_id_set_is_empty(s: &AHashSet<u8>) -> (r: bool)
    ensures
        r == (byte_id_items(*s) == Set::<u8>::empty()),
{
    s.is_empty()
}

/// `HashSet::insert` for `u8` ids.
#[verifier::external_body]
pub(crate) fn byte_id_set_insert(s: &mut AHashSet<u8>, id: u8)
    ensures
        byte_id_items(*final(s)) == byte_id_items(*old(s)).insert(id),
{
    s.insert(id);
}

/// Whether a value passes one allow/block pair: the allow list is empty or
/// holds it, and the block list does not hold it.
pub open spec fn passes<T>(allow: Set<T>, block: Set<T>, v: T) -> bool {
    (allow == Set::<T>::empty() || allow.contains(v)) && !block.contains(v)
}

/// The filters of one endpoint.
#[derive(Debug)]
pub struct EndpointFilters {
    /// Message ids allowed outgoing (when non-empty, only these pass).
    pub allow_msg_id_out: AHashSet<u32>,
    /// Message ids blocked outgoing.
    pub block_msg_id_out: AHashSet<u32>,
    /// Source component ids allowed outgoing.
    pub allow_src_comp_out: AHashSet<u8>,
    /// Source component ids blocked outgoing.
    pub block_src_comp_out: AHashSet<u8>,
    /// Source system ids allowed outgoing.
    pub allow_src_sys_out: AHashSet<u8>,
    /// Source system ids blocked outgoing.
    pub block_src_sys_out: AHashSet<u8>,
    /// Message ids allowed incoming (when non-empty, only these pass).
    pub allow_msg_id_in: AHashSet<u32>,
    /// Message ids blocked incoming.
    pub block_msg_id_in: AHashSet<u32>,
    /// Source component ids allowed incoming.
    pub allow_src_comp_in: AHashSet<u8>,
    /// Source component ids blocked incoming.
    pub block_src_comp_in: AHashSet<u8>,
    /// Source system ids allowed incoming.
    pub allow_src_sys_in: AHashSet<u8>,
    /// Source system ids blocked incoming.
    pub block_src_sys_in: AHashSet<u8>,
}

impl EndpointFilters {
    /// Whether an incoming message with this header and id passes the
    /// `_in` lists.
    pub open spec fn incoming_allows(&self, header: MavHeader, msg_id: u32) -> bool {
        &&& passes(msg_id_items(self.allow_msg_id_in), msg_id_items(self.block_msg_id_in), msg_id)
        &&& passes(
            byte_id_items(self.allow_src_comp_in),
            byte_id_items(self.block_src_comp_in),
            header.component_id,
        )
        &&& passes(
            byte_id_items(self.allow_src_sys_in),
            byte_id_items(self.block_src_sys_in),
            header.system_id,
        )
    }

    /// Whether an outgoing message with this header and id passes the
    /// `_out` lists.
    pub open spec fn outgoing_allows(&self, header: MavHeader, msg_id: u32) -> bool {
        &&& passes(
            msg_id_items(self.allow_msg_id_out),
            msg_id_items(self.block_msg_id_out),
            msg_id,
        )
        &&& passes(
            byte_id_items(self.allow_src_comp_out),
            byte_id_items(self.block_src_comp_out),
            header.component_id,
        )
        &&& passes(
            byte_id_items(self.allow_src_sys_out),
            byte_id_items(self.block_src_sys_out),
            header.system_id,
        )
    }

    /// `true` if the incoming message passes every `_in` list.
    pub fn check_incoming(&self, header: &MavHeader, msg_id: u32) -> (r: bool)
        ensures
            r == self.incoming_allows(*header, msg_id),
    {
        Self::check(
            header,
            msg_id,
            &self.allow_msg_id_in,
            &self.block_msg_id_in,
            &self.allow_src_comp_in,
            &self.block_src_comp_in,
            &self.allow_src_sys_in,
            &self.block_src_sys_in,
        )
    }

    /// `true` if the outgoing message passes every `_out` list.
    pub fn check_outgoing(&self, header: &MavHeader, msg_id: u32) -> (r: bool)
        ensures
            r == self.outgoing_allows(*header, msg_id),
    {
        Self::check(
            header,
            msg_id,
            &self.allow_msg_id_out,
            &self.block_msg_id_out,
            &self.allow_src_comp_out,
            &self.block_src_comp_out,
            &self.allow_src_sys_out,
            &self.block_src_sys_out,
        )
    }

    /// Applies one direction's six lists: message id first, then source
    /// component, then source system; allow before block for each.
    fn check(
        header: &MavHeader,
        msg_id: u32,
        allow_msg: &AHashSet<u32>,
        block_msg: &AHashSet<u32>,
        allow_comp: &AHashSet<u8>,
        block_comp: &AHashSet<u8>,
        allow_sys: &AHashSet<u8>,
        block_sys: &AHashSet<u8>,
    ) -> (r: bool)
        ensures
            r == (passes(msg_id_items(*allow_msg), msg_id_items(*block_msg), msg_id) && passes(
                byte_id_items(*allow_comp),
                byte_id_items(*block_comp),
                header.component_id,
            ) && passes(byte_id_items(*allow_sys), byte_id_items(*block_sys), header.system_id)),
    {
        if !msg_id_set_is_empty(allow_msg) && !msg_id_set_contains(allow_msg, msg_id) {
            return false;
        }
        if msg_id_set_contains(block_msg, msg_id) {
            return false;
        }
        if !byte_id_set_is_empty(allow_comp) && !byte_id_set_contains(allow_comp, header.component_id) {
            return false;
        }
        if byte_id_set_contains(block_comp, header.component_id) {
            return false;
        }
        if !byte_id_set_is_empty(allow_sys) && !byte_id_set_contains(allow_sys, header.system_id) {
            return false;
        }
        if byte_id_set_contains(block_sys, header.system_id) {
            return false;
        }
        true
    }

    /// Whether every list of both directions is empty.
    pub open spec fn is_unrestricted(&self) -> bool {
        &&& msg_id_items(self.allow_msg_id_out) == Set::<u32>::empty()
        &&& msg_id_items(self.block_msg_id_out) == Set::<u32>::empty()
        &&& byte_id_items(self.allow_src_comp_out) == Set::<u8>::empty()
        &&& byte_id_items(self.block_src_comp_out) == Set::<u8>::empty()
        &&& byte_id_items(self.allow_src_sys_out) == Set::<u8>::empty()
        &&& byte_id_items(self.block_src_sys_out) == Set::<u8>::empty()
        &&& msg_id_items(self.allow_msg_id_in) == Set::<u32>::empty()
        &&& msg_id_items(self.block_msg_id_in) == Set::<u32>::empty()
        &&& byte_id_items(self.allow_src_comp_in) == Set::<u8>::empty()
        &&& byte_id_items(self.block_src_comp_in) == Set::<u8>::empty()
        &&& byte_id_items(self.allow_src_sys_in) == Set::<u8>::empty()
        &&& byte_id_items(self.block_src_sys_in) == Set::<u8>::empty()
    }
}

impl EndpointFilters {
    /// Whether two filters hold the same ids in every list.
    pub open spec fn same_lists(&self, other: &EndpointFilters) -> bool {
        &&& msg_id_items(self.allow_msg_id_out) == msg_id_items(other.allow_msg_id_out)
        &&& msg_id_items(self.block_msg_id_out) == msg_id_items(other.block_msg_id_out)
        &&& byte_id_items(self.allow_src_comp_out) == byte_id_items(other.allow_src_comp_out)
        &&& byte_id_items(self.block_src_comp_out) == byte_id_items(other.block_src_comp_out)
        &&& byte_id_items(self.allow_src_sys_out) == byte_id_items(other.allow_src_sys_out)
        &&& byte_id_items(self.block_src_sys_out) == byte_id_items(other.block_src_sys_out)
        &&& msg_id_items(self.allow_msg_id_in) == msg_id_items(other.allow_msg_id_in)
        &&& msg_id_items(self.block_msg_id_in) == msg_id_items(other.block_msg_id_in)
        &&& byte_id_items(self.allow_src_comp_in) == byte_id_items(other.allow_src_comp_in)
        &&& byte_id_items(self.block_src_comp_in) == byte_id_items(other.block_src_comp_in)
        &&& byte_id_items(self.allow_src_sys_in) == byte_id_items(other.allow_src_sys_in)
        &&& byte_id_items(self.block_src_sys_in) == byte_id_items(other.block_src_sys_in)
    }
}

impl Clone for EndpointFilters {
    /// A copy holding the same ids in every list.
    fn clone(&self) -> (c: Self)
        ensures
            c.same_lists(self),
    {
        EndpointFilters {
            allow_msg_id_out: msg_id_set_clone(&self.allow_msg_id_out),
            block_msg_id_out: msg_id_set_clone(&self.block_msg_id_out),
            allow_src_comp_out: byte_id_set_clone(&self.allow_src_comp_out),
            block_src_comp_out: byte_id_set_clone(&self.block_src_comp_out),
            allow_src_sys_out: byte_id_set_clone(&self.allow_src_sys_out),
            block_src_sys_out: byte_id_set_clone(&self.block_src_sys_out),
            allow_msg_id_in: msg_id_set_clone(&self.allow_msg_id_in),
            block_msg_id_in: msg_id_set_clone(&self.block_msg_id_in),
            allow_src_comp_in: byte_id_set_clone(&self.allow_src_comp_in),
            block_src_comp_in: byte_id_set_clone(&self.block_src_comp_in),
            allow_src_sys_in: byte_id_set_clone(&self.allow_src_sys_in),
            block_src_sys_in: byte_id_set_clone(&self.block_src_sys_in),
        }
    }
}

impl Default for EndpointFilters {
    /// Filters with every list empty: everything passes.
    fn default() -> (f: Self)
        ensures
            f.is_unrestricted(),
    {
        EndpointFilters {
            allow_msg_id_out: msg_id_set_new(),
            block_msg_id_out: msg_id_set_new(),
            allow_src_comp_out: byte_id_set_new(),
            block_src_comp_out: byte_id_set_new(),
            allow_src_sys_out: byte_id_set_new(),
            block_src_sys_out: byte_id_set_new(),
            allow_msg_id_in: msg_id_set_new(),
            block_msg_id_in: msg_id_set_new(),
            allow_src_comp_in: byte_id_set_new(),
            block_src_comp_in: byte_id_set_new(),
            allow_src_sys_in: byte_id_set_new(),
            block_src_sys_in: byte_id_set_new(),
        }
    }
}

/// Filters with every list empty let every message through, both ways.
pub proof fn lemma_unrestricted_filters_pass_everything(
    f: EndpointFilters,
    header: MavHeader,
    msg_id: u32,
)
    requires
        f.is_unrestricted(),
    ensures
        f.incoming_allows(header, msg_id),
        f.outgoing_allows(header, msg_id),
{
}

/// A message id on an outgoing block list is dropped outgoing, whatever
/// the allow list holds; likewise for a source component or system id.
pub proof fn lemma_block_overrides_allow_outgoing(
    f: EndpointFilters,
    header: MavHeader,
    msg_id: u32,
)
    requires
        msg_id_items(f.block_msg_id_out).contains(msg_id) || byte_id_items(
            f.block_src_comp_out,
        ).contains(header.component_id) || byte_id_items(f.block_src_sys_out).contains(
            header.system_id,
        ),
    ensures
        !f.outgoing_allows(header, msg_id),
{
}

/// The incoming counterpart: a blocked value is dropped incoming whatever
/// the allow list holds.
pub proof fn lemma_block_overrides_allow_incoming(
    f: EndpointFilters,
    header: MavHeader,
    msg_id: u32,
)
    requires
        msg_id_items(f.block_msg_id_in).contains(msg_id) || byte_id_items(
            f.block_src_comp_in,
        ).contains(header.component_id) || byte_id_items(f.block_src_sys_in).contains(
            header.system_id,
        ),
    ensures
        !f.incoming_allows(header, msg_id),
{
}

/// With a non-empty allow list, a message id missing from it is dropped.
pub proof fn lemma_allow_list_excludes_others_outgoing(
    f: EndpointFilters,
    header: MavHeader,
    msg_id: u32,
)
    requires
        msg_id_items(f.allow_msg_id_out) != Set::<u32>::empty(),
        !msg_id_items(f.allow_msg_id_out).contains(msg_id),
    ensures
        !f.outgoing_allows(header, msg_id),
{
}

/// An incoming message passes exactly when, for each of message id, source
/// component and source system, its allow list is empty or holds the
/// value, and its block list does not hold it.
pub proof fn lemma_incoming_lists(f: EndpointFilters, header: MavHeader, msg_id: u32)
    ensures
        f.incoming_allows(header, msg_id) <==> (msg_id_items(f.allow_msg_id_in) == Set::<u32>::empty() || msg_id_items(
            f.allow_msg_id_in,
        ).contains(msg_id))
            && !msg_id_items(f.block_msg_id_in).contains(msg_id)
            && (byte_id_items(f.allow_src_comp_in) == Set::<u8>::empty() || byte_id_items(
            f.allow_src_comp_in,
        ).contains(header.component_id))
            && !byte_id_items(f.block_src_comp_in).contains(header.component_id)
            && (byte_id_items(f.allow_src_sys_in) == Set::<u8>::empty() || byte_id_items(
            f.allow_src_sys_in,
        ).contains(header.system_id))
            && !byte_id_items(f.block_src_sys_in).contains(header.system_id),
{
}

/// An outgoing message passes exactly when, for each of message id, source
/// component and source system, its allow list is empty or holds the
/// value, and its block list does not hold it.
pub proof fn lemma_outgoing_lists(f: EndpointFilters, header: MavHeader, msg_id: u32)
    ensures
        f.outgoing_allows(header, msg_id) <==> (msg_id_items(f.allow_msg_id_out) == Set::<u32>::empty() || msg_id_items(
            f.allow_msg_id_out,
        ).contains(msg_id))
            && !msg_id_items(f.block_msg_id_out).contains(msg_id)
            && (byte_id_items(f.allow_src_comp_out) == Set::<u8>::empty() || byte_id_items(
            f.allow_src_comp_out,
        ).contains(header.component_id))
            && !byte_id_items(f.block_src_comp_out).contains(header.component_id)
            && (byte_id_items(f.allow_src_sys_out) == Set::<u8>::empty() || byte_id_items(
            f.allow_src_sys_out,
        ).contains(header.system_id))
            && !byte_id_items(f.block_src_sys_out).contains(header.system_id),
{
}

/// Incoming, a non-empty allow list drops every value it does not hold:
/// a message id, a source component or a source system.
pub proof fn lemma_allow_lists_exclude_others_incoming(
    f: EndpointFilters,
    header: MavHeader,
    msg_id: u32,
)
    ensures
        msg_id_items(f.allow_msg_id_in) != Set::<u32>::empty() && !msg_id_items(
            f.allow_msg_id_in,
        ).contains(msg_id) ==> !f.incoming_allows(header, msg_id),
        byte_id_items(f.allow_src_comp_in) != Set::<u8>::empty() && !byte_id_items(
            f.allow_src_comp_in,
        ).contains(header.component_id) ==> !f.incoming_allows(header, msg_id),
        byte_id_items(f.allow_src_sys_in) != Set::<u8>::empty() && !byte_id_items(
            f.allow_src_sys_in,
        ).contains(header.system_id) ==> !f.incoming_allows(header, msg_id),
{
}

/// Outgoing, a non-empty source-component or source-system allow list
/// drops every value it does not hold.
pub proof fn lemma_allow_lists_exclude_others_outgoing(
    f: EndpointFilters,
    header: MavHeader,
    msg_id: u32,
)
    ensures
        byte_id_items(f.allow_src_comp_out) != Set::<u8>::empty() && !byte_id_items(
            f.allow_src_comp_out,
        ).contains(header.component_id) ==> !f.outgoing_allows(header, msg_id),
        byte_id_items(f.allow_src_sys_out) != Set::<u8>::empty() && !byte_id_items(
            f.allow_src_sys_out,
        ).contains(header.system_id) ==> !f.outgoing_allows(header, msg_id),
{
}

} // verus!
