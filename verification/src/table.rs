use vstd::prelude::*;

use crate::backend::{
    debug_balance, BackendCommand, BackendComputePassDescriptor, BackendRenderPassDescriptor,
    CommandModel, ComputePassDescriptorModel, RenderPassDescriptorModel,
};
use crate::error::WebGpuError;
use crate::wire::label_view;

verus! {

// The resource-handle table: the registry that maps small integer handles to
// the live resources of one recording session. Handles grow monotonically and
// are never reused; a destructive take leaves its slot permanently empty, so
// a taken handle can never resolve again.

/// A command encoder while it is recording. `debug_groups` counts the debug
/// groups currently open in `commands`; it always equals the stream's push/pop
/// balance.
pub struct CommandEncoder {
    pub device: u64,
    pub label: Option<String>,
    pub commands: Vec<BackendCommand>,
    pub debug_groups: usize,
}

/// The immutable result of finishing an encoder.
pub struct CommandBuffer {
    pub device: u64,
    pub label: Option<String>,
    pub commands: Vec<BackendCommand>,
}

/// An open render pass, bound to the encoder it was begun on. Its translated
/// descriptor is folded back into the parent's stream when the pass ends.
pub struct RenderPassRecorder {
    pub parent: u32,
    pub descriptor: BackendRenderPassDescriptor,
}

/// An open compute pass, bound to the encoder it was begun on.
pub struct ComputePassRecorder {
    pub parent: u32,
    pub descriptor: BackendComputePassDescriptor,
}

/// One live table entry: a tag and exactly one backend-native identifier or
/// recorder. Callers never see the identifier directly.
pub enum ResourceEntry {
    Device(u64),
    Buffer(u64),
    Texture(u64),
    TextureView(u64),
    QuerySet(u64),
    CommandEncoder(CommandEncoder),
    CommandBuffer(CommandBuffer),
    RenderPass(RenderPassRecorder),
    ComputePass(ComputePassRecorder),
}

// Specification-level images of the entries.

pub struct EncoderModel {
    pub device: u64,
    pub label: Option<Seq<char>>,
    pub commands: Seq<CommandModel>,
    pub debug_groups: int,
}

impl EncoderModel {
    /// The open-group counter is exactly the stream's push/pop balance.
    pub open spec fn wf(self) -> bool {
        self.debug_groups == debug_balance(self.commands)
    }
}

pub struct BufferModel {
    pub device: u64,
    pub label: Option<Seq<char>>,
    pub commands: Seq<CommandModel>,
}

pub struct RenderPassModel {
    pub parent: u32,
    pub descriptor: RenderPassDescriptorModel,
}

pub struct ComputePassModel {
    pub parent: u32,
    pub descriptor: ComputePassDescriptorModel,
}

pub enum EntryModel {
    Device(u64),
    Buffer(u64),
    Texture(u64),
    TextureView(u64),
    QuerySet(u64),
    CommandEncoder(EncoderModel),
    CommandBuffer(BufferModel),
    RenderPass(RenderPassModel),
    ComputePass(ComputePassModel),
}

impl View for CommandEncoder {
    type V = EncoderModel;

    open spec fn view(&self) -> EncoderModel {
        EncoderModel {
            device: self.device,
            label: label_view(self.label),
            commands: self.commands@.map_values(|c: BackendCommand| c@),
            debug_groups: self.debug_groups as int,
        }
    }
}

impl View for CommandBuffer {
    type V = BufferModel;

    open spec fn view(&self) -> BufferModel {
        BufferModel {
            device: self.device,
            label: label_view(self.label),
            commands: self.commands@.map_values(|c: BackendCommand| c@),
        }
    }
}

impl View for RenderPassRecorder {
    type V = RenderPassModel;

    open spec fn view(&self) -> RenderPassModel {
        RenderPassModel { parent: self.parent, descriptor: self.descriptor@ }
    }
}

impl View for ComputePassRecorder {
    type V = ComputePassModel;

    open spec fn view(&self) -> ComputePassModel {
        ComputePassModel { parent: self.parent, descriptor: self.descriptor@ }
    }
}

impl View for ResourceEntry {
    type V = EntryModel;

    open spec fn view(&self) -> EntryModel {
        match self {
            ResourceEntry::Device(id) => EntryModel::Device(*id),
            ResourceEntry::Buffer(id) => EntryModel::Buffer(*id),
            ResourceEntry::Texture(id) => EntryModel::Texture(*id),
            ResourceEntry::TextureView(id) => EntryModel::TextureView(*id),
            ResourceEntry::QuerySet(id) => EntryModel::QuerySet(*id),
            ResourceEntry::CommandEncoder(e) => EntryModel::CommandEncoder(e@),
            ResourceEntry::CommandBuffer(b) => EntryModel::CommandBuffer(b@),
            ResourceEntry::RenderPass(p) => EntryModel::RenderPass(p@),
            ResourceEntry::ComputePass(p) => EntryModel::ComputePass(p@),
        }
    }
}

/// Well-formedness of one table entry: an encoder's open-group counter
/// matches its stream; every other kind carries no internal invariant.
pub open spec fn entry_wf(e: EntryModel) -> bool {
    match e {
        EntryModel::CommandEncoder(m) => m.wf(),
        _ => true,
    }
}

// Kind predicates over the table model, the vocabulary of the recording
// operations' contracts.

pub open spec fn is_device(m: Map<u32, EntryModel>, h: u32) -> bool {
    m.dom().contains(h) && m[h] is Device
}

pub open spec fn is_buffer(m: Map<u32, EntryModel>, h: u32) -> bool {
    m.dom().contains(h) && m[h] is Buffer
}

pub open spec fn is_texture(m: Map<u32, EntryModel>, h: u32) -> bool {
    m.dom().contains(h) && m[h] is Texture
}

pub open spec fn is_texture_view(m: Map<u32, EntryModel>, h: u32) -> bool {
    m.dom().contains(h) && m[h] is TextureView
}

pub open spec fn is_query_set(m: Map<u32, EntryModel>, h: u32) -> bool {
    m.dom().contains(h) && m[h] is QuerySet
}

pub open spec fn is_encoder(m: Map<u32, EntryModel>, h: u32) -> bool {
    m.dom().contains(h) && m[h] is CommandEncoder
}

pub open spec fn is_render_pass(m: Map<u32, EntryModel>, h: u32) -> bool {
    m.dom().contains(h) && m[h] is RenderPass
}

pub open spec fn is_compute_pass(m: Map<u32, EntryModel>, h: u32) -> bool {
    m.dom().contains(h) && m[h] is ComputePass
}

/// Whether `e` is a pass recorder still bound to encoder handle `h`.
pub open spec fn entry_is_open_pass_of(e: EntryModel, h: u32) -> bool {
    match e {
        EntryModel::RenderPass(p) => p.parent == h,
        EntryModel::ComputePass(p) => p.parent == h,
        _ => false,
    }
}

/// Whether some live pass recorder is still bound to encoder handle `h`.
pub open spec fn spec_has_open_pass(m: Map<u32, EntryModel>, h: u32) -> bool {
    exists|p: u32| m.dom().contains(p) && entry_is_open_pass_of(m[p], h)
}

/// The encoder model after one more command is recorded on it.
pub open spec fn spec_append(m: EncoderModel, c: CommandModel) -> EncoderModel {
    EncoderModel {
        device: m.device,
        label: m.label,
        commands: m.commands.push(c),
        debug_groups: m.debug_groups + crate::backend::command_balance_delta(c),
    }
}

/// The registry. One slot per handle ever issued; a live handle is a slot
/// still holding its entry, a taken handle is a slot holding nothing.
pub struct HandleTable {
    slots: Vec<Option<ResourceEntry>>,
}

impl View for HandleTable {
    type V = Map<u32, EntryModel>;

    /// The table as a partial map from live handles to entry models.
    closed spec fn view(&self) -> Map<u32, EntryModel> {
        Map::new(
            |h: u32| h < self.slots@.len() && self.slots@[h as int] is Some,
            |h: u32| self.slots@[h as int]->0@,
        )
    }
}

impl HandleTable {
    /// How many handles have ever been issued; also the next fresh handle.
    pub closed spec fn slot_len(&self) -> int {
        self.slots@.len() as int
    }

    pub open spec fn wf(&self) -> bool {
        &&& self.slot_len() <= u32::MAX
        &&& forall|h: u32| self@.dom().contains(h) ==> entry_wf(self@[h])
    }

    /// Every live handle was issued before the next fresh one.
    pub proof fn lemma_dom_bound(&self, h: u32)
        requires
            self@.dom().contains(h),
        ensures
            h < self.slot_len(),
    {
    }

    /// Whether a fresh handle can still be issued.
    pub fn has_space(&self) -> (r: bool)
        ensures
            r == (self.slot_len() < u32::MAX),
    {
        self.slots.len() < u32::MAX as usize
    }

    pub fn new() -> (r: HandleTable)
        ensures
            r.wf(),
            r@ == Map::<u32, EntryModel>::empty(),
            r.slot_len() == 0,
    {
        let t = HandleTable { slots: Vec::new() };
        proof {
            assert(t@ =~= Map::<u32, EntryModel>::empty());
        }
        t
    }

    /// Registers an entry under a fresh, never before issued handle.
    pub fn insert(&mut self, e: ResourceEntry) -> (h: u32)
        requires
            old(self).wf(),
            old(self).slot_len() < u32::MAX,
            entry_wf(e@),
        ensures
            final(self).wf(),
            h as int == old(self).slot_len(),
            !old(self)@.dom().contains(h),
            final(self)@ == old(self)@.insert(h, e@),
            final(self).slot_len() == old(self).slot_len() + 1,
    {
        let h = self.slots.len() as u32;
        let ghost pre = self@;
        self.slots.push(Some(e));
        proof {
            assert(self@ =~= pre.insert(h, e@));
        }
        h
    }

    /// Non-destructive lookup.
    pub fn get(&self, h: u32) -> (r: Option<&ResourceEntry>)
        ensures
            match r {
                Option::Some(e) => self@.dom().contains(h) && e@ == self@[h],
                Option::None => !self@.dom().contains(h),
            },
    {
        if (h as usize) < self.slots.len() {
            match &self.slots[h as usize] {
                Option::Some(e) => Option::Some(e),
                Option::None => Option::None,
            }
        } else {
            Option::None
        }
    }

    /// Destructive takeover: removes and returns the entry, leaving the
    /// handle permanently dead. Fails with `InvalidHandle` on a handle that
    /// does not resolve, leaving the table untouched.
    pub fn take(&mut self, h: u32) -> (r: Result<ResourceEntry, WebGpuError>)
        requires
            old(self).wf(),
        ensures
            final(self).wf(),
            final(self).slot_len() == old(self).slot_len(),
            match r {
                Result::Ok(e) => {
                    &&& old(self)@.dom().contains(h)
                    &&& e@ == old(self)@[h]
                    &&& final(self)@ == old(self)@.remove(h)
                },
                Result::Err(err) => {
                    &&& err == WebGpuError::InvalidHandle
                    &&& !old(self)@.dom().contains(h)
                    &&& final(self)@ == old(self)@
                },
            },
    {
        if (h as usize) < self.slots.len() && self.slots[h as usize].is_some() {
            let ghost pre = self@;
            let slot = &mut self.slots[h as usize];
            let taken = slot.take();
            proof {
                assert(self@ =~= pre.remove(h));
            }
            match taken {
                Option::Some(e) => Result::Ok(e),
                Option::None => {
                    proof {
                        assert(false);
                    }
                    Result::Err(WebGpuError::InvalidHandle)
                },
            }
        } else {
            Result::Err(WebGpuError::InvalidHandle)
        }
    }

    /// Resolves `h` to the backend identifier of a device entry.
    pub fn get_device_id(&self, h: u32) -> (r: Result<u64, WebGpuError>)
        ensures
            match r {
                Result::Ok(id) => self@.dom().contains(h) && self@[h] == EntryModel::Device(id),
                Result::Err(err) => err == WebGpuError::InvalidHandle && !is_device(self@, h),
            },
    {
        match self.get(h) {
            Option::Some(e) => match e {
                ResourceEntry::Device(id) => Result::Ok(*id),
                _ => Result::Err(WebGpuError::InvalidHandle),
            },
            Option::None => Result::Err(WebGpuError::InvalidHandle),
        }
    }

    /// Resolves `h` to the backend identifier of a buffer entry.
    pub fn get_buffer_id(&self, h: u32) -> (r: Result<u64, WebGpuError>)
        ensures
            match r {
                Result::Ok(id) => self@.dom().contains(h) && self@[h] == EntryModel::Buffer(id),
                Result::Err(err) => err == WebGpuError::InvalidHandle && !is_buffer(self@, h),
            },
    {
        match self.get(h) {
            Option::Some(e) => match e {
                ResourceEntry::Buffer(id) => Result::Ok(*id),
                _ => Result::Err(WebGpuError::InvalidHandle),
            },
            Option::None => Result::Err(WebGpuError::InvalidHandle),
        }
    }

    /// Resolves `h` to the backend identifier of a texture entry.
    pub fn get_texture_id(&self, h: u32) -> (r: Result<u64, WebGpuError>)
        ensures
            match r {
                Result::Ok(id) => self@.dom().contains(h) && self@[h] == EntryModel::Texture(id),
                Result::Err(err) => err == WebGpuError::InvalidHandle && !is_texture(self@, h),
            },
    {
        match self.get(h) {
            Option::Some(e) => match e {
                ResourceEntry::Texture(id) => Result::Ok(*id),
                _ => Result::Err(WebGpuError::InvalidHandle),
            },
            Option::None => Result::Err(WebGpuError::InvalidHandle),
        }
    }

    /// Resolves `h` to the backend identifier of a texture-view entry.
    pub fn get_texture_view_id(&self, h: u32) -> (r: Result<u64, WebGpuError>)
        ensures
            match r {
                Result::Ok(id) => self@.dom().contains(h) && self@[h] == EntryModel::TextureView(
                    id,
                ),
                Result::Err(err) => err == WebGpuError::InvalidHandle && !is_texture_view(
                    self@,
                    h,
                ),
            },
    {
        match self.get(h) {
            Option::Some(e) => match e {
                ResourceEntry::TextureView(id) => Result::Ok(*id),
                _ => Result::Err(WebGpuError::InvalidHandle),
            },
            Option::None => Result::Err(WebGpuError::InvalidHandle),
        }
    }

    /// Resolves `h` to the backend identifier of a query-set entry.
    pub fn get_query_set_id(&self, h: u32) -> (r: Result<u64, WebGpuError>)
        ensures
            match r {
                Result::Ok(id) => self@.dom().contains(h) && self@[h] == EntryModel::QuerySet(id),
                Result::Err(err) => err == WebGpuError::InvalidHandle && !is_query_set(self@, h),
            },
    {
        match self.get(h) {
            Option::Some(e) => match e {
                ResourceEntry::QuerySet(id) => Result::Ok(*id),
                _ => Result::Err(WebGpuError::InvalidHandle),
            },
            Option::None => Result::Err(WebGpuError::InvalidHandle),
        }
    }

    /// Whether `h` currently resolves to a recording encoder.
    pub fn check_encoder(&self, h: u32) -> (r: bool)
        ensures
            r == is_encoder(self@, h),
    {
        match self.get(h) {
            Option::Some(e) => match e {
                ResourceEntry::CommandEncoder(enc) => true,
                _ => false,
            },
            Option::None => false,
        }
    }

    /// Whether some pass begun on encoder `h` has not been ended yet.
    pub fn has_open_pass(&self, h: u32) -> (r: bool)
        requires
            self.wf(),
        ensures
            r == spec_has_open_pass(self@, h),
    {
        let n = self.slots.len();
        let mut i: usize = 0;
        while i < n
            invariant
                self.wf(),
                n == self.slots@.len(),
                i <= n,
                forall|j: u32|
                    j < i ==> !(self@.dom().contains(j) && entry_is_open_pass_of(self@[j], h)),
            decreases n - i,
        {
            let found = match &self.slots[i] {
                Option::Some(e) => match e {
                    ResourceEntry::RenderPass(p) => p.parent == h,
                    ResourceEntry::ComputePass(p) => p.parent == h,
                    _ => false,
                },
                Option::None => false,
            };
            if found {
                proof {
                    let w = i as u32;
                    assert(self@.dom().contains(w) && entry_is_open_pass_of(self@[w], h));
                }
                return true;
            }
            i = i + 1;
        }
        proof {
            assert forall|p: u32| self@.dom().contains(p) implies !entry_is_open_pass_of(
                self@[p],
                h,
            ) by {
                assert(p < n);
            }
        }
        false
    }

    /// Records one more command on the encoder at `h`. Fails with
    /// `InvalidHandle` if `h` does not resolve to an encoder and with
    /// `EncoderOperationFailed` if the command would pop a debug group while
    /// none is open; a failed call leaves the table untouched.
    pub fn append_to_encoder(&mut self, h: u32, cmd: BackendCommand) -> (r: Result<
        (),
        WebGpuError,
    >)
        requires
            old(self).wf(),
        ensures
            final(self).wf(),
            final(self).slot_len() == old(self).slot_len(),
            match r {
                Result::Ok(()) => {
                    &&& is_encoder(old(self)@, h)
                    &&& (cmd@ is PopDebugGroup ==> old(
                        self,
                    )@[h]->CommandEncoder_0.debug_groups > 0)
                    &&& final(self)@ == old(self)@.insert(
                        h,
                        EntryModel::CommandEncoder(
                            spec_append(old(self)@[h]->CommandEncoder_0, cmd@),
                        ),
                    )
                },
                Result::Err(err) => {
                    &&& final(self)@ == old(self)@
                    &&& match err {
                        WebGpuError::InvalidHandle => !is_encoder(old(self)@, h),
                        WebGpuError::EncoderOperationFailed => is_encoder(old(self)@, h) && cmd@
                            is PopDebugGroup && old(self)@[h]->CommandEncoder_0.debug_groups == 0,
                        _ => false,
                    }
                },
            },
    {
        let is_push = matches!(cmd, BackendCommand::PushDebugGroup { .. });
        let is_pop = matches!(cmd, BackendCommand::PopDebugGroup);
        match self.get(h) {
            Option::Some(e) => match e {
                ResourceEntry::CommandEncoder(enc) => {
                    if is_pop && enc.debug_groups == 0 {
                        return Result::Err(WebGpuError::EncoderOperationFailed);
                    }
                },
                _ => {
                    return Result::Err(WebGpuError::InvalidHandle);
                },
            },
            Option::None => {
                return Result::Err(WebGpuError::InvalidHandle);
            },
        }
        let ghost pre = self@;
        let ghost pre_model = self@[h]->CommandEncoder_0;
        let ghost cmd_model = cmd@;
        proof {
            crate::backend::lemma_balance_le_len(pre_model.commands);
            crate::backend::lemma_balance_push(pre_model.commands, cmd_model);
        }
        let idx = h as usize;
        let slot = &mut self.slots[idx];
        match slot {
            Option::Some(entry) => match entry {
                ResourceEntry::CommandEncoder(enc) => {
                    proof {
                        assert(pre.dom().contains(h));
                        assert(entry_wf(pre[h]));
                        assert(pre_model.debug_groups <= pre_model.commands.len());
                    }
                    enc.commands.push(cmd);
                    let clen = enc.commands.len();
                    proof {
                        assert(clen == pre_model.commands.len() + 1);
                    }
                    if is_push {
                        enc.debug_groups = enc.debug_groups + 1;
                    } else if is_pop {
                        enc.debug_groups = enc.debug_groups - 1;
                    }
                },
                _ => {
                    proof {
                        assert(false);
                    }
                },
            },
            Option::None => {
                proof {
                    assert(false);
                }
            },
        }
        proof {
            assert(self@[h]->CommandEncoder_0.commands =~= pre_model.commands.push(cmd_model));
            assert(self@ =~= pre.insert(
                h,
                EntryModel::CommandEncoder(spec_append(pre_model, cmd_model)),
            ));
        }
        Result::Ok(())
    }
}

/// Destructive takeover is final: once `take(h)` has succeeded — by its
/// contract the table becomes `m.remove(h)` — the handle is outside the
/// table's domain, so by the contracts of `get` and `take` every further
/// `get(h)` returns nothing and every further `take(h)` fails with
/// `InvalidHandle`.
pub proof fn lemma_take_invalidates_handle(m: Map<u32, EntryModel>, h: u32)
    requires
        m.dom().contains(h),
    ensures
        !m.remove(h).dom().contains(h),
{
}

} // verus!
