//! The names of the operations that blocks can have.

use vstd::prelude::*;

verus! {

/// The operations of the standard blocks.
#[allow(non_camel_case_types)]
#[derive(Debug, Clone, Copy, PartialEq, Eq)]
pub enum PrimaryOpCode {
    control_forever,
    control_repeat,
    control_if,
    control_if_else,
    control_stop,
    control_wait,
    control_wait_until,
    control_repeat_until,
    control_while,
    control_for_each,
    control_start_as_clone,
    control_create_clone_of_menu,
    control_create_clone_of,
    control_delete_this_clone,
    control_get_counter,
    control_incr_counter,
    control_clear_counter,
    control_all_at_once,
    data_variable,
    data_setvariableto,
    data_changevariableby,
    data_showvariable,
    data_hidevariable,
    data_listcontents,
    data_listindexall,
    data_listindexrandom,
    data_addtolist,
    data_deleteoflist,
    data_deletealloflist,
    data_insertatlist,
    data_replaceitemoflist,
    data_itemoflist,
    data_itemnumoflist,
    data_lengthoflist,
    data_listcontainsitem,
    data_showlist,
    data_hidelist,
    event_whentouchingobject,
    event_touchingobjectmenu,
    event_whenflagclicked,
    event_whenthisspriteclicked,
    event_whenstageclicked,
    event_whenbroadcastreceived,
    event_whenbackdropswitchesto,
    event_whengreaterthan,
    event_broadcast_menu,
    event_broadcast,
    event_broadcastandwait,
    event_whenkeypressed,
    extension_pen_down,
    extension_music_drum,
    extension_wedo_motor,
    extension_wedo_hat,
    extension_wedo_boolean,
    extension_wedo_tilt_reporter,
    extension_wedo_tilt_menu,
    extension_music_reporter,
    extension_microbit_display,
    extension_music_play_note,
    looks_sayforsecs,
    looks_say,
    looks_thinkforsecs,
    looks_think,
    looks_show,
    looks_hide,
    looks_hideallsprites,
    looks_changeeffectby,
    looks_seteffectto,
    looks_cleargraphiceffects,
    looks_changesizeby,
    looks_setsizeto,
    looks_size,
    looks_changestretchby,
    looks_setstretchto,
    looks_costume,
    looks_switchcostumeto,
    looks_nextcostume,
    looks_switchbackdropto,
    looks_backdrops,
    looks_gotofrontback,
    looks_goforwardbackwardlayers,
    looks_backdropnumbername,
    looks_costumenumbername,
    looks_switchbackdroptoandwait,
    looks_nextbackdrop,
    motion_movesteps,
    motion_turnright,
    motion_turnleft,
    motion_pointindirection,
    motion_pointtowards_menu,
    motion_pointtowards,
    motion_goto_menu,
    motion_gotoxy,
    motion_goto,
    motion_glidesecstoxy,
    motion_glideto_menu,
    motion_glideto,
    motion_changexby,
    motion_setx,
    motion_changeyby,
    motion_sety,
    motion_ifonedgebounce,
    motion_setrotationstyle,
    motion_xposition,
    motion_yposition,
    motion_direction,
    motion_scroll_right,
    motion_scroll_up,
    motion_align_scene,
    motion_xscroll,
    motion_yscroll,
    operator_add,
    operator_subtract,
    operator_multiply,
    operator_divide,
    operator_random,
    operator_lt,
    operator_equals,
    operator_gt,
    operator_and,
    operator_or,
    operator_not,
    operator_join,
    operator_letter_of,
    operator_length,
    operator_contains,
    operator_mod,
    operator_round,
    operator_mathop,
    procedures_definition,
    procedures_call,
    procedures_prototype,
    procedures_declaration,
    argument_reporter_boolean,
    argument_reporter_string_number,
    argument_editor_boolean,
    argument_editor_string_number,
    sensing_touchingobject,
    sensing_touchingobjectmenu,
    sensing_touchingcolor,
    sensing_coloristouchingcolor,
    sensing_distanceto,
    sensing_distancetomenu,
    sensing_askandwait,
    sensing_answer,
    sensing_keypressed,
    sensing_keyoptions,
    sensing_mousedown,
    sensing_mousex,
    sensing_mousey,
    sensing_setdragmode,
    sensing_loudness,
    sensing_loud,
    sensing_timer,
    sensing_resettimer,
    sensing_of_object_menu,
    sensing_of,
    sensing_current,
    sensing_dayssince2000,
    sensing_username,
    sensing_userid,
    sound_sounds_menu,
    sound_play,
    sound_playuntildone,
    sound_stopallsounds,
    sound_seteffectto,
    sound_changeeffectby,
    sound_cleareffects,
    sound_changevolumeby,
    sound_setvolumeto,
    sound_volume,
}

impl PrimaryOpCode {
    /// The name of the operation as the document spells it.
    pub open spec fn name(self) -> Seq<char> {
        match self {
            PrimaryOpCode::control_forever => "control_forever"@,
            PrimaryOpCode::control_repeat => "control_repeat"@,
            PrimaryOpCode::control_if => "control_if"@,
            PrimaryOpCode::control_if_else => "control_if_else"@,
            PrimaryOpCode::control_stop => "control_stop"@,
            PrimaryOpCode::control_wait => "control_wait"@,
            PrimaryOpCode::control_wait_until => "control_wait_until"@,
            PrimaryOpCode::control_repeat_until => "control_repeat_until"@,
            PrimaryOpCode::control_while => "control_while"@,
            PrimaryOpCode::control_for_each => "control_for_each"@,
            PrimaryOpCode::control_start_as_clone => "control_start_as_clone"@,
            PrimaryOpCode::control_create_clone_of_menu => "control_create_clone_of_menu"@,
            PrimaryOpCode::control_create_clone_of => "control_create_clone_of"@,
            PrimaryOpCode::control_delete_this_clone => "control_delete_this_clone"@,
            PrimaryOpCode::control_get_counter => "control_get_counter"@,
            PrimaryOpCode::control_incr_counter => "control_incr_counter"@,
            PrimaryOpCode::control_clear_counter => "control_clear_counter"@,
            PrimaryOpCode::control_all_at_once => "control_all_at_once"@,
            PrimaryOpCode::data_variable => "data_variable"@,
            PrimaryOpCode::data_setvariableto => "data_setvariableto"@,
            PrimaryOpCode::data_changevariableby => "data_changevariableby"@,
            PrimaryOpCode::data_showvariable => "data_showvariable"@,
            PrimaryOpCode::data_hidevariable => "data_hidevariable"@,
            PrimaryOpCode::data_listcontents => "data_listcontents"@,
            PrimaryOpCode::data_listindexall => "data_listindexall"@,
            PrimaryOpCode::data_listindexrandom => "data_listindexrandom"@,
            PrimaryOpCode::data_addtolist => "data_addtolist"@,
            PrimaryOpCode::data_deleteoflist => "data_deleteoflist"@,
            PrimaryOpCode::data_deletealloflist => "data_deletealloflist"@,
            PrimaryOpCode::data_insertatlist => "data_insertatlist"@,
            PrimaryOpCode::data_replaceitemoflist => "data_replaceitemoflist"@,
            PrimaryOpCode::data_itemoflist => "data_itemoflist"@,
            PrimaryOpCode::data_itemnumoflist => "data_itemnumoflist"@,
            PrimaryOpCode::data_lengthoflist => "data_lengthoflist"@,
            PrimaryOpCode::data_listcontainsitem => "data_listcontainsitem"@,
            PrimaryOpCode::data_showlist => "data_showlist"@,
            PrimaryOpCode::data_hidelist => "data_hidelist"@,
            PrimaryOpCode::event_whentouchingobject => "event_whentouchingobject"@,
            PrimaryOpCode::event_touchingobjectmenu => "event_touchingobjectmenu"@,
            PrimaryOpCode::event_whenflagclicked => "event_whenflagclicked"@,
            PrimaryOpCode::event_whenthisspriteclicked => "event_whenthisspriteclicked"@,
            PrimaryOpCode::event_whenstageclicked => "event_whenstageclicked"@,
            PrimaryOpCode::event_whenbroadcastreceived => "event_whenbroadcastreceived"@,
            PrimaryOpCode::event_whenbackdropswitchesto => "event_whenbackdropswitchesto"@,
            PrimaryOpCode::event_whengreaterthan => "event_whengreaterthan"@,
            PrimaryOpCode::event_broadcast_menu => "event_broadcast_menu"@,
            PrimaryOpCode::event_broadcast => "event_broadcast"@,
            PrimaryOpCode::event_broadcastandwait => "event_broadcastandwait"@,
            PrimaryOpCode::event_whenkeypressed => "event_whenkeypressed"@,
            PrimaryOpCode::extension_pen_down => "extension_pen_down"@,
            PrimaryOpCode::extension_music_drum => "extension_music_drum"@,
            PrimaryOpCode::extension_wedo_motor => "extension_wedo_motor"@,
            PrimaryOpCode::extension_wedo_hat => "extension_wedo_hat"@,
            PrimaryOpCode::extension_wedo_boolean => "extension_wedo_boolean"@,
            PrimaryOpCode::extension_wedo_tilt_reporter => "extension_wedo_tilt_reporter"@,
            PrimaryOpCode::extension_wedo_tilt_menu => "extension_wedo_tilt_menu"@,
            PrimaryOpCode::extension_music_reporter => "extension_music_reporter"@,
            PrimaryOpCode::extension_microbit_display => "extension_microbit_display"@,
            PrimaryOpCode::extension_music_play_note => "extension_music_play_note"@,
            PrimaryOpCode::looks_sayforsecs => "looks_sayforsecs"@,
            PrimaryOpCode::looks_say => "looks_say"@,
            PrimaryOpCode::looks_thinkforsecs => "looks_thinkforsecs"@,
            PrimaryOpCode::looks_think => "looks_think"@,
            PrimaryOpCode::looks_show => "looks_show"@,
            PrimaryOpCode::looks_hide => "looks_hide"@,
            PrimaryOpCode::looks_hideallsprites => "looks_hideallsprites"@,
            PrimaryOpCode::looks_changeeffectby => "looks_changeeffectby"@,
            PrimaryOpCode::looks_seteffectto => "looks_seteffectto"@,
            PrimaryOpCode::looks_cleargraphiceffects => "looks_cleargraphiceffects"@,
            PrimaryOpCode::looks_changesizeby => "looks_changesizeby"@,
            PrimaryOpCode::looks_setsizeto => "looks_setsizeto"@,
            PrimaryOpCode::looks_size => "looks_size"@,
            PrimaryOpCode::looks_changestretchby => "looks_changestretchby"@,
            PrimaryOpCode::looks_setstretchto => "looks_setstretchto"@,
            PrimaryOpCode::looks_costume => "looks_costume"@,
            PrimaryOpCode::looks_switchcostumeto => "looks_switchcostumeto"@,
            PrimaryOpCode::looks_nextcostume => "looks_nextcostume"@,
            PrimaryOpCode::looks_switchbackdropto => "looks_switchbackdropto"@,
            PrimaryOpCode::looks_backdrops => "looks_backdrops"@,
            PrimaryOpCode::looks_gotofrontback => "looks_gotofrontback"@,
            PrimaryOpCode::looks_goforwardbackwardlayers => "looks_goforwardbackwardlayers"@,
            PrimaryOpCode::looks_backdropnumbername => "looks_backdropnumbername"@,
            PrimaryOpCode::looks_costumenumbername => "looks_costumenumbername"@,
            PrimaryOpCode::looks_switchbackdroptoandwait => "looks_switchbackdroptoandwait"@,
            PrimaryOpCode::looks_nextbackdrop => "looks_nextbackdrop"@,
            PrimaryOpCode::motion_movesteps => "motion_movesteps"@,
            PrimaryOpCode::motion_turnright => "motion_turnright"@,
            PrimaryOpCode::motion_turnleft => "motion_turnleft"@,
            PrimaryOpCode::motion_pointindirection => "motion_pointindirection"@,
            PrimaryOpCode::motion_pointtowards_menu => "motion_pointtowards_menu"@,
            PrimaryOpCode::motion_pointtowards => "motion_pointtowards"@,
            PrimaryOpCode::motion_goto_menu => "motion_goto_menu"@,
            PrimaryOpCode::motion_gotoxy => "motion_gotoxy"@,
            PrimaryOpCode::motion_goto => "motion_goto"@,
            PrimaryOpCode::motion_glidesecstoxy => "motion_glidesecstoxy"@,
            PrimaryOpCode::motion_glideto_menu => "motion_glideto_menu"@,
            PrimaryOpCode::motion_glideto => "motion_glideto"@,
            PrimaryOpCode::motion_changexby => "motion_changexby"@,
            PrimaryOpCode::motion_setx => "motion_setx"@,
            PrimaryOpCode::motion_changeyby => "motion_changeyby"@,
            PrimaryOpCode::motion_sety => "motion_sety"@,
            PrimaryOpCode::motion_ifonedgebounce => "motion_ifonedgebounce"@,
            PrimaryOpCode::motion_setrotationstyle => "motion_setrotationstyle"@,
            PrimaryOpCode::motion_xposition => "motion_xposition"@,
            PrimaryOpCode::motion_yposition => "motion_yposition"@,
            PrimaryOpCode::motion_direction => "motion_direction"@,
            PrimaryOpCode::motion_scroll_right => "motion_scroll_right"@,
            PrimaryOpCode::motion_scroll_up => "motion_scroll_up"@,
            PrimaryOpCode::motion_align_scene => "motion_align_scene"@,
            PrimaryOpCode::motion_xscroll => "motion_xscroll"@,
            PrimaryOpCode::motion_yscroll => "motion_yscroll"@,
            PrimaryOpCode::operator_add => "operator_add"@,
            PrimaryOpCode::operator_subtract => "operator_subtract"@,
            PrimaryOpCode::operator_multiply => "operator_multiply"@,
            PrimaryOpCode::operator_divide => "operator_divide"@,
            PrimaryOpCode::operator_random => "operator_random"@,
            PrimaryOpCode::operator_lt => "operator_lt"@,
            PrimaryOpCode::operator_equals => "operator_equals"@,
            PrimaryOpCode::operator_gt => "operator_gt"@,
            PrimaryOpCode::operator_and => "operator_and"@,
            PrimaryOpCode::operator_or => "operator_or"@,
            PrimaryOpCode::operator_not => "operator_not"@,
            PrimaryOpCode::operator_join => "operator_join"@,
            PrimaryOpCode::operator_letter_of => "operator_letter_of"@,
            PrimaryOpCode::operator_length => "operator_length"@,
            PrimaryOpCode::operator_contains => "operator_contains"@,
            PrimaryOpCode::operator_mod => "operator_mod"@,
            PrimaryOpCode::operator_round => "operator_round"@,
            PrimaryOpCode::operator_mathop => "operator_mathop"@,
            PrimaryOpCode::procedures_definition => "procedures_definition"@,
            PrimaryOpCode::procedures_call => "procedures_call"@,
            PrimaryOpCode::procedures_prototype => "procedures_prototype"@,
            PrimaryOpCode::procedures_declaration => "procedures_declaration"@,
            PrimaryOpCode::argument_reporter_boolean => "argument_reporter_boolean"@,
            PrimaryOpCode::argument_reporter_string_number => "argument_reporter_string_number"@,
            PrimaryOpCode::argument_editor_boolean => "argument_editor_boolean"@,
            PrimaryOpCode::argument_editor_string_number => "argument_editor_string_number"@,
            PrimaryOpCode::sensing_touchingobject => "sensing_touchingobject"@,
            PrimaryOpCode::sensing_touchingobjectmenu => "sensing_touchingobjectmenu"@,
            PrimaryOpCode::sensing_touchingcolor => "sensing_touchingcolor"@,
            PrimaryOpCode::sensing_coloristouchingcolor => "sensing_coloristouchingcolor"@,
            PrimaryOpCode::sensing_distanceto => "sensing_distanceto"@,
            PrimaryOpCode::sensing_distancetomenu => "sensing_distancetomenu"@,
            PrimaryOpCode::sensing_askandwait => "sensing_askandwait"@,
            PrimaryOpCode::sensing_answer => "sensing_answer"@,
            PrimaryOpCode::sensing_keypressed => "sensing_keypressed"@,
            PrimaryOpCode::sensing_keyoptions => "sensing_keyoptions"@,
            PrimaryOpCode::sensing_mousedown => "sensing_mousedown"@,
            PrimaryOpCode::sensing_mousex => "sensing_mousex"@,
            PrimaryOpCode::sensing_mousey => "sensing_mousey"@,
            PrimaryOpCode::sensing_setdragmode => "sensing_setdragmode"@,
            PrimaryOpCode::sensing_loudness => "sensing_loudness"@,
            PrimaryOpCode::sensing_loud => "sensing_loud"@,
            PrimaryOpCode::sensing_timer => "sensing_timer"@,
            PrimaryOpCode::sensing_resettimer => "sensing_resettimer"@,
            PrimaryOpCode::sensing_of_object_menu => "sensing_of_object_menu"@,
            PrimaryOpCode::sensing_of => "sensing_of"@,
            PrimaryOpCode::sensing_current => "sensing_current"@,
            PrimaryOpCode::sensing_dayssince2000 => "sensing_dayssince2000"@,
            PrimaryOpCode::sensing_username => "sensing_username"@,
            PrimaryOpCode::sensing_userid => "sensing_userid"@,
            PrimaryOpCode::sound_sounds_menu => "sound_sounds_menu"@,
            PrimaryOpCode::sound_play => "sound_play"@,
            PrimaryOpCode::sound_playuntildone => "sound_playuntildone"@,
            PrimaryOpCode::sound_stopallsounds => "sound_stopallsounds"@,
            PrimaryOpCode::sound_seteffectto => "sound_seteffectto"@,
            PrimaryOpCode::sound_changeeffectby => "sound_changeeffectby"@,
            PrimaryOpCode::sound_cleareffects => "sound_cleareffects"@,
            PrimaryOpCode::sound_changevolumeby => "sound_changevolumeby"@,
            PrimaryOpCode::sound_setvolumeto => "sound_setvolumeto"@,
            PrimaryOpCode::sound_volume => "sound_volume"@,
        }
    }

    /// The name of the operation as the document spells it.
    pub fn as_str(&self) -> (name: &'static str)
        ensures
            name@ == self.name(),
    {
        match self {
            PrimaryOpCode::control_forever => "control_forever",
            PrimaryOpCode::control_repeat => "control_repeat",
            PrimaryOpCode::control_if => "control_if",
            PrimaryOpCode::control_if_else => "control_if_else",
            PrimaryOpCode::control_stop => "control_stop",
            PrimaryOpCode::control_wait => "control_wait",
            PrimaryOpCode::control_wait_until => "control_wait_until",
            PrimaryOpCode::control_repeat_until => "control_repeat_until",
            PrimaryOpCode::control_while => "control_while",
            PrimaryOpCode::control_for_each => "control_for_each",
            PrimaryOpCode::control_start_as_clone => "control_start_as_clone",
            PrimaryOpCode::control_create_clone_of_menu => "control_create_clone_of_menu",
            PrimaryOpCode::control_create_clone_of => "control_create_clone_of",
            PrimaryOpCode::control_delete_this_clone => "control_delete_this_clone",
            PrimaryOpCode::control_get_counter => "control_get_counter",
            PrimaryOpCode::control_incr_counter => "control_incr_counter",
            PrimaryOpCode::control_clear_counter => "control_clear_counter",
            PrimaryOpCode::control_all_at_once => "control_all_at_once",
            PrimaryOpCode::data_variable => "data_variable",
            PrimaryOpCode::data_setvariableto => "data_setvariableto",
            PrimaryOpCode::data_changevariableby => "data_changevariableby",
            PrimaryOpCode::data_showvariable => "data_showvariable",
            PrimaryOpCode::data_hidevariable => "data_hidevariable",
            PrimaryOpCode::data_listcontents => "data_listcontents",
            PrimaryOpCode::data_listindexall => "data_listindexall",
            PrimaryOpCode::data_listindexrandom => "data_listindexrandom",
            PrimaryOpCode::data_addtolist => "data_addtolist",
            PrimaryOpCode::data_deleteoflist => "data_deleteoflist",
            PrimaryOpCode::data_deletealloflist => "data_deletealloflist",
            PrimaryOpCode::data_insertatlist => "data_insertatlist",
            PrimaryOpCode::data_replaceitemoflist => "data_replaceitemoflist",
            PrimaryOpCode::data_itemoflist => "data_itemoflist",
            PrimaryOpCode::data_itemnumoflist => "data_itemnumoflist",
            PrimaryOpCode::data_lengthoflist => "data_lengthoflist",
            PrimaryOpCode::data_listcontainsitem => "data_listcontainsitem",
            PrimaryOpCode::data_showlist => "data_showlist",
            PrimaryOpCode::data_hidelist => "data_hidelist",
            PrimaryOpCode::event_whentouchingobject => "event_whentouchingobject",
            PrimaryOpCode::event_touchingobjectmenu => "event_touchingobjectmenu",
            PrimaryOpCode::event_whenflagclicked => "event_whenflagclicked",
            PrimaryOpCode::event_whenthisspriteclicked => "event_whenthisspriteclicked",
            PrimaryOpCode::event_whenstageclicked => "event_whenstageclicked",
            PrimaryOpCode::event_whenbroadcastreceived => "event_whenbroadcastreceived",
            PrimaryOpCode::event_whenbackdropswitchesto => "event_whenbackdropswitchesto",
            PrimaryOpCode::event_whengreaterthan => "event_whengreaterthan",
            PrimaryOpCode::event_broadcast_menu => "event_broadcast_menu",
            PrimaryOpCode::event_broadcast => "event_broadcast",
            PrimaryOpCode::event_broadcastandwait => "event_broadcastandwait",
            PrimaryOpCode::event_whenkeypressed => "event_whenkeypressed",
            PrimaryOpCode::extension_pen_down => "extension_pen_down",
            PrimaryOpCode::extension_music_drum => "extension_music_drum",
            PrimaryOpCode::extension_wedo_motor => "extension_wedo_motor",
            PrimaryOpCode::extension_wedo_hat => "extension_wedo_hat",
            PrimaryOpCode::extension_wedo_boolean => "extension_wedo_boolean",
            PrimaryOpCode::extension_wedo_tilt_reporter => "extension_wedo_tilt_reporter",
            PrimaryOpCode::extension_wedo_tilt_menu => "extension_wedo_tilt_menu",
            PrimaryOpCode::extension_music_reporter => "extension_music_reporter",
            PrimaryOpCode::extension_microbit_display => "extension_microbit_display",
            PrimaryOpCode::extension_music_play_note => "extension_music_play_note",
            PrimaryOpCode::looks_sayforsecs => "looks_sayforsecs",
            PrimaryOpCode::looks_say => "looks_say",
            PrimaryOpCode::looks_thinkforsecs => "looks_thinkforsecs",
            PrimaryOpCode::looks_think => "looks_think",
            PrimaryOpCode::looks_show => "looks_show",
            PrimaryOpCode::looks_hide => "looks_hide",
            PrimaryOpCode::looks_hideallsprites => "looks_hideallsprites",
            PrimaryOpCode::looks_changeeffectby => "looks_changeeffectby",
            PrimaryOpCode::looks_seteffectto => "looks_seteffectto",
            PrimaryOpCode::looks_cleargraphiceffects => "looks_cleargraphiceffects",
            PrimaryOpCode::looks_changesizeby => "looks_changesizeby",
            PrimaryOpCode::looks_setsizeto => "looks_setsizeto",
            PrimaryOpCode::looks_size => "looks_size",
            PrimaryOpCode::looks_changestretchby => "looks_changestretchby",
            PrimaryOpCode::looks_setstretchto => "looks_setstretchto",
            PrimaryOpCode::looks_costume => "looks_costume",
            PrimaryOpCode::looks_switchcostumeto => "looks_switchcostumeto",
            PrimaryOpCode::looks_nextcostume => "looks_nextcostume",
            PrimaryOpCode::looks_switchbackdropto => "looks_switchbackdropto",
            PrimaryOpCode::looks_backdrops => "looks_backdrops",
            PrimaryOpCode::looks_gotofrontback => "looks_gotofrontback",
            PrimaryOpCode::looks_goforwardbackwardlayers => "looks_goforwardbackwardlayers",
            PrimaryOpCode::looks_backdropnumbername => "looks_backdropnumbername",
            PrimaryOpCode::looks_costumenumbername => "looks_costumenumbername",
            PrimaryOpCode::looks_switchbackdroptoandwait => "looks_switchbackdroptoandwait",
            PrimaryOpCode::looks_nextbackdrop => "looks_nextbackdrop",
            PrimaryOpCode::motion_movesteps => "motion_movesteps",
            PrimaryOpCode::motion_turnright => "motion_turnright",
            PrimaryOpCode::motion_turnleft => "motion_turnleft",
            PrimaryOpCode::motion_pointindirection => "motion_pointindirection",
            PrimaryOpCode::motion_pointtowards_menu => "motion_pointtowards_menu",
            PrimaryOpCode::motion_pointtowards => "motion_pointtowards",
            PrimaryOpCode::motion_goto_menu => "motion_goto_menu",
            PrimaryOpCode::motion_gotoxy => "motion_gotoxy",
            PrimaryOpCode::motion_goto => "motion_goto",
            PrimaryOpCode::motion_glidesecstoxy => "motion_glidesecstoxy",
            PrimaryOpCode::motion_glideto_menu => "motion_glideto_menu",
            PrimaryOpCode::motion_glideto => "motion_glideto",
            PrimaryOpCode::motion_changexby => "motion_changexby",
            PrimaryOpCode::motion_setx => "motion_setx",
            PrimaryOpCode::motion_changeyby => "motion_changeyby",
            PrimaryOpCode::motion_sety => "motion_sety",
            PrimaryOpCode::motion_ifonedgebounce => "motion_ifonedgebounce",
            PrimaryOpCode::motion_setrotationstyle => "motion_setrotationstyle",
            PrimaryOpCode::motion_xposition => "motion_xposition",
            PrimaryOpCode::motion_yposition => "motion_yposition",
            PrimaryOpCode::motion_direction => "motion_direction",
            PrimaryOpCode::motion_scroll_right => "motion_scroll_right",
            PrimaryOpCode::motion_scroll_up => "motion_scroll_up",
            PrimaryOpCode::motion_align_scene => "motion_align_scene",
            PrimaryOpCode::motion_xscroll => "motion_xscroll",
            PrimaryOpCode::motion_yscroll => "motion_yscroll",
            PrimaryOpCode::operator_add => "operator_add",
            PrimaryOpCode::operator_subtract => "operator_subtract",
            PrimaryOpCode::operator_multiply => "operator_multiply",
            PrimaryOpCode::operator_divide => "operator_divide",
            PrimaryOpCode::operator_random => "operator_random",
            PrimaryOpCode::operator_lt => "operator_lt",
            PrimaryOpCode::operator_equals => "operator_equals",
            PrimaryOpCode::operator_gt => "operator_gt",
            PrimaryOpCode::operator_and => "operator_and",
            PrimaryOpCode::operator_or => "operator_or",
            PrimaryOpCode::operator_not => "operator_not",
            PrimaryOpCode::operator_join => "operator_join",
            PrimaryOpCode::operator_letter_of => "operator_letter_of",
            PrimaryOpCode::operator_length => "operator_length",
            PrimaryOpCode::operator_contains => "operator_contains",
            PrimaryOpCode::operator_mod => "operator_mod",
            PrimaryOpCode::operator_round => "operator_round",
            PrimaryOpCode::operator_mathop => "operator_mathop",
            PrimaryOpCode::procedures_definition => "procedures_definition",
            PrimaryOpCode::procedures_call => "procedures_call",
            PrimaryOpCode::procedures_prototype => "procedures_prototype",
            PrimaryOpCode::procedures_declaration => "procedures_declaration",
            PrimaryOpCode::argument_reporter_boolean => "argument_reporter_boolean",
            PrimaryOpCode::argument_reporter_string_number => "argument_reporter_string_number",
            PrimaryOpCode::argument_editor_boolean => "argument_editor_boolean",
            PrimaryOpCode::argument_editor_string_number => "argument_editor_string_number",
            PrimaryOpCode::sensing_touchingobject => "sensing_touchingobject",
            PrimaryOpCode::sensing_touchingobjectmenu => "sensing_touchingobjectmenu",
            PrimaryOpCode::sensing_touchingcolor => "sensing_touchingcolor",
            PrimaryOpCode::sensing_coloristouchingcolor => "sensing_coloristouchingcolor",
            PrimaryOpCode::sensing_distanceto => "sensing_distanceto",
            PrimaryOpCode::sensing_distancetomenu => "sensing_distancetomenu",
            PrimaryOpCode::sensing_askandwait => "sensing_askandwait",
            PrimaryOpCode::sensing_answer => "sensing_answer",
            PrimaryOpCode::sensing_keypressed => "sensing_keypressed",
            PrimaryOpCode::sensing_keyoptions => "sensing_keyoptions",
            PrimaryOpCode::sensing_mousedown => "sensing_mousedown",
            PrimaryOpCode::sensing_mousex => "sensing_mousex",
            PrimaryOpCode::sensing_mousey => "sensing_mousey",
            PrimaryOpCode::sensing_setdragmode => "sensing_setdragmode",
            PrimaryOpCode::sensing_loudness => "sensing_loudness",
            PrimaryOpCode::sensing_loud => "sensing_loud",
            PrimaryOpCode::sensing_timer => "sensing_timer",
            PrimaryOpCode::sensing_resettimer => "sensing_resettimer",
            PrimaryOpCode::sensing_of_object_menu => "sensing_of_object_menu",
            PrimaryOpCode::sensing_of => "sensing_of",
            PrimaryOpCode::sensing_current => "sensing_current",
            PrimaryOpCode::sensing_dayssince2000 => "sensing_dayssince2000",
            PrimaryOpCode::sensing_username => "sensing_username",
            PrimaryOpCode::sensing_userid => "sensing_userid",
            PrimaryOpCode::sound_sounds_menu => "sound_sounds_menu",
            PrimaryOpCode::sound_play => "sound_play",
            PrimaryOpCode::sound_playuntildone => "sound_playuntildone",
            PrimaryOpCode::sound_stopallsounds => "sound_stopallsounds",
            PrimaryOpCode::sound_seteffectto => "sound_seteffectto",
            PrimaryOpCode::sound_changeeffectby => "sound_changeeffectby",
            PrimaryOpCode::sound_cleareffects => "sound_cleareffects",
            PrimaryOpCode::sound_changevolumeby => "sound_changevolumeby",
            PrimaryOpCode::sound_setvolumeto => "sound_setvolumeto",
            PrimaryOpCode::sound_volume => "sound_volume",
        }
    }

    /// The name of the operation as an owned text, ready to be the operation of
    /// a block.
    pub fn to_string(&self) -> (name: String)
        ensures
            name@ == self.name(),
    {
        self.as_str().to_owned()
    }
}

/// The operations of the blocks of the pen extension.
#[allow(non_camel_case_types)]
#[derive(Debug, Clone, Copy, PartialEq, Eq)]
pub enum PenExtensionOpCode {
    pen_clear,
    pen_stamp,
    pen_penDown,
    pen_penUp,
    pen_setPenColorToColor,
    pen_changePenColorParamBy,
    pen_setPenColorParamTo,
    pen_changePenSizeBy,
    pen_setPenSizeTo,
    pen_setPenShadeToNumber,
    pen_changePenShadeBy,
    pen_setPenHueToNumber,
    pen_changePenHueBy,
}

impl PenExtensionOpCode {
    /// The name of the operation as the document spells it.
    pub open spec fn name(self) -> Seq<char> {
        match self {
            PenExtensionOpCode::pen_clear => "pen_clear"@,
            PenExtensionOpCode::pen_stamp => "pen_stamp"@,
            PenExtensionOpCode::pen_penDown => "pen_penDown"@,
            PenExtensionOpCode::pen_penUp => "pen_penUp"@,
            PenExtensionOpCode::pen_setPenColorToColor => "pen_setPenColorToColor"@,
            PenExtensionOpCode::pen_changePenColorParamBy => "pen_changePenColorParamBy"@,
            PenExtensionOpCode::pen_setPenColorParamTo => "pen_setPenColorParamTo"@,
            PenExtensionOpCode::pen_changePenSizeBy => "pen_changePenSizeBy"@,
            PenExtensionOpCode::pen_setPenSizeTo => "pen_setPenSizeTo"@,
            PenExtensionOpCode::pen_setPenShadeToNumber => "pen_setPenShadeToNumber"@,
            PenExtensionOpCode::pen_changePenShadeBy => "pen_changePenShadeBy"@,
            PenExtensionOpCode::pen_setPenHueToNumber => "pen_setPenHueToNumber"@,
            PenExtensionOpCode::pen_changePenHueBy => "pen_changePenHueBy"@,
        }
    }

    /// The name of the operation as the document spells it.
    pub fn as_str(&self) -> (name: &'static str)
        ensures
            name@ == self.name(),
    {
        match self {
            PenExtensionOpCode::pen_clear => "pen_clear",
            PenExtensionOpCode::pen_stamp => "pen_stamp",
            PenExtensionOpCode::pen_penDown => "pen_penDown",
            PenExtensionOpCode::pen_penUp => "pen_penUp",
            PenExtensionOpCode::pen_setPenColorToColor => "pen_setPenColorToColor",
            PenExtensionOpCode::pen_changePenColorParamBy => "pen_changePenColorParamBy",
            PenExtensionOpCode::pen_setPenColorParamTo => "pen_setPenColorParamTo",
            PenExtensionOpCode::pen_changePenSizeBy => "pen_changePenSizeBy",
            PenExtensionOpCode::pen_setPenSizeTo => "pen_setPenSizeTo",
            PenExtensionOpCode::pen_setPenShadeToNumber => "pen_setPenShadeToNumber",
            PenExtensionOpCode::pen_changePenShadeBy => "pen_changePenShadeBy",
            PenExtensionOpCode::pen_setPenHueToNumber => "pen_setPenHueToNumber",
            PenExtensionOpCode::pen_changePenHueBy => "pen_changePenHueBy",
        }
    }

    /// The name of the operation as an owned text, ready to be the operation of
    /// a block.
    pub fn to_string(&self) -> (name: String)
        ensures
            name@ == self.name(),
    {
        self.as_str().to_owned()
    }
}

} // verus!
