//! The overlay's shared state: the switches the user sets, and what the
//! reader thread reports about the game it is attached to.
use vstd::prelude::*;

verus! {

/// The feature switches of the control panel.
#[derive(Clone, Copy, PartialEq, Eq, Debug)]
pub struct Features {
    pub esp_enabled: bool,
    pub show_names: bool,
    pub show_snaplines: bool,
    pub aimbot_enabled: bool,
    pub aimbot_vis_check: bool,
    pub show_fov_circle: bool,
    pub inf_ammo: bool,
    pub inf_hp: bool,
    pub no_recoil: bool,
}

impl Features {
    /// The switches as the panel starts: only names, the visibility check
    /// and the field-of-view circle are on.
    pub open spec fn initial() -> Features {
        Features {
            esp_enabled: false,
            show_names: true,
            show_snaplines: false,
            aimbot_enabled: false,
            aimbot_vis_check: true,
            show_fov_circle: true,
            inf_ammo: false,
            inf_hp: false,
            no_recoil: false,
        }
    }
}

impl Default for Features {
    fn default() -> (f: Self)
        ensures
            f == Features::initial(),
    {
        Features {
            esp_enabled: false,
            show_names: true,
            show_snaplines: false,
            aimbot_enabled: false,
            aimbot_vis_check: true,
            show_fov_circle: true,
            inf_ammo: false,
            inf_hp: false,
            no_recoil: false,
        }
    }
}

/// What the reader thread reports about the game.
#[derive(Clone, Copy, PartialEq, Eq, Debug)]
pub struct Status {
    pub attached: bool,
    pub process_id: Option<u32>,
    pub player_count: u32,
    pub box_count: usize,
    pub module_base: usize,
    pub entity_list_ptr: usize,
    pub current_frame: u32,
    pub debug_last_vis: u32,
}

impl Status {
    /// The status before any game was found: detached, everything zero.
    pub open spec fn initial() -> Status {
        Status {
            attached: false,
            process_id: None,
            player_count: 0,
            box_count: 0,
            module_base: 0,
            entity_list_ptr: 0,
            current_frame: 0,
            debug_last_vis: 0,
        }
    }

    /// The status once the game process `process_id` was opened and its
    /// module found at `module_base`.
    pub open spec fn attached_to(self, process_id: u32, module_base: usize) -> Status {
        Status { attached: true, process_id: Some(process_id), module_base, ..self }
    }

    /// The status once a tick has read the game's globals.
    pub open spec fn ticked(self, player_count: u32, entity_list_ptr: usize, current_frame: u32) -> Status {
        Status { player_count, entity_list_ptr, current_frame, ..self }
    }

    /// The status once a tick's scan of the entities is done.
    pub open spec fn scanned(self, box_count: usize, debug_last_vis: u32) -> Status {
        Status { box_count, debug_last_vis, ..self }
    }

    /// The status once the reader has lost the game.
    pub open spec fn detached(self) -> Status {
        Status { attached: false, process_id: None, player_count: 0, box_count: 0, ..self }
    }

    /// Records that the game process `process_id` was opened and its module
    /// found at `module_base`; the rest is unchanged.
    pub fn attach(&mut self, process_id: u32, module_base: usize)
        ensures
            *final(self) == old(self).attached_to(process_id, module_base),
    {
        self.attached = true;
        self.process_id = Some(process_id);
        self.module_base = module_base;
    }

    /// Records what one tick read from the game's globals; the rest is
    /// unchanged.
    pub fn record_tick(&mut self, player_count: u32, entity_list_ptr: usize, current_frame: u32)
        ensures
            *final(self) == old(self).ticked(player_count, entity_list_ptr, current_frame),
    {
        self.player_count = player_count;
        self.entity_list_ptr = entity_list_ptr;
        self.current_frame = current_frame;
    }

    /// Records the outcome of one tick's scan of the entities; the rest is
    /// unchanged.
    pub fn record_scan(&mut self, box_count: usize, debug_last_vis: u32)
        ensures
            *final(self) == old(self).scanned(box_count, debug_last_vis),
    {
        self.box_count = box_count;
        self.debug_last_vis = debug_last_vis;
    }

    /// Records that the reader lost the game: detached, no process, no
    /// players and no boxes; the rest is unchanged.
    pub fn detach(&mut self)
        ensures
            *final(self) == old(self).detached(),
    {
        self.attached = false;
        self.process_id = None;
        self.player_count = 0;
        self.box_count = 0;
    }
}

impl Default for Status {
    fn default() -> (s: Self)
        ensures
            s == Status::initial(),
    {
        Status {
            attached: false,
            process_id: None,
            player_count: 0,
            box_count: 0,
            module_base: 0,
            entity_list_ptr: 0,
            current_frame: 0,
            debug_last_vis: 0,
        }
    }
}

/// Losing the game, whatever the status was, leaves it detached with no
/// process, players or boxes; losing it again changes nothing more.
pub proof fn lemma_detach_clears(s: Status)
    ensures
        !s.detached().attached,
        s.detached().process_id is None,
        s.detached().player_count == 0,
        s.detached().box_count == 0,
        s.detached().detached() == s.detached(),
{
}

/// Reading the game's globals and scanning its entities never change
/// whether the reader is attached, nor to which process.
pub proof fn lemma_ticks_keep_attachment(
    s: Status,
    player_count: u32,
    entity_list_ptr: usize,
    current_frame: u32,
    box_count: usize,
    debug_last_vis: u32,
)
    ensures
        s.ticked(player_count, entity_list_ptr, current_frame).attached == s.attached,
        s.ticked(player_count, entity_list_ptr, current_frame).process_id == s.process_id,
        s.scanned(box_count, debug_last_vis).attached == s.attached,
        s.scanned(box_count, debug_last_vis).process_id == s.process_id,
{
}

/// Attaching after losing the game reports the new process and module as
/// attached, with the player and box counts still zero until the next tick.
pub proof fn lemma_reattach(s: Status, process_id: u32, module_base: usize)
    ensures
        s.detached().attached_to(process_id, module_base).attached,
        s.detached().attached_to(process_id, module_base).process_id == Some(process_id),
        s.detached().attached_to(process_id, module_base).module_base == module_base,
        s.detached().attached_to(process_id, module_base).player_count == 0,
        s.detached().attached_to(process_id, module_base).box_count == 0,
{
}

/// Attaching, from any status at all, reports the reader attached to the
/// given process and module and changes nothing else.
pub proof fn lemma_attach_from_any(s: Status, process_id: u32, module_base: usize)
    ensures
        s.attached_to(process_id, module_base).attached,
        s.attached_to(process_id, module_base).process_id == Some(process_id),
        s.attached_to(process_id, module_base).module_base == module_base,
        s.attached_to(process_id, module_base).player_count == s.player_count,
        s.attached_to(process_id, module_base).box_count == s.box_count,
        s.attached_to(process_id, module_base).entity_list_ptr == s.entity_list_ptr,
        s.attached_to(process_id, module_base).current_frame == s.current_frame,
        s.attached_to(process_id, module_base).debug_last_vis == s.debug_last_vis,
{
}

/// A tick records exactly the values it read and a scan exactly its box
/// count and visibility reading, each leaving the other fields as they were.
pub proof fn lemma_tick_and_scan_record(
    s: Status,
    player_count: u32,
    entity_list_ptr: usize,
    current_frame: u32,
    box_count: usize,
    debug_last_vis: u32,
)
    ensures
        ({
            let t = s.ticked(player_count, entity_list_ptr, current_frame);
            &&& t.player_count == player_count && t.entity_list_ptr == entity_list_ptr
            &&& t.current_frame == current_frame
            &&& t.box_count == s.box_count && t.debug_last_vis == s.debug_last_vis
            &&& t.module_base == s.module_base
        }),
        ({
            let c = s.scanned(box_count, debug_last_vis);
            &&& c.box_count == box_count && c.debug_last_vis == debug_last_vis
            &&& c.player_count == s.player_count && c.entity_list_ptr == s.entity_list_ptr
            &&& c.current_frame == s.current_frame && c.module_base == s.module_base
        }),
{
}

/// The control panel starts with ESP, snaplines, the aimbot and every memory
/// patch off, and names, the visibility check and the field-of-view circle
/// on; the reader starts detached with every count and address zero.
pub proof fn lemma_initial_state()
    ensures
        !Features::initial().esp_enabled && Features::initial().show_names,
        !Features::initial().show_snaplines && !Features::initial().aimbot_enabled,
        Features::initial().aimbot_vis_check && Features::initial().show_fov_circle,
        !Features::initial().inf_ammo && !Features::initial().inf_hp && !Features::initial().no_recoil,
        !Status::initial().attached && Status::initial().process_id is None,
        Status::initial().player_count == 0 && Status::initial().box_count == 0,
        Status::initial().module_base == 0 && Status::initial().entity_list_ptr == 0,
        Status::initial().current_frame == 0 && Status::initial().debug_last_vis == 0,
{
}

} // verus!
