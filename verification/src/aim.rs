//! Aiming: while the aim input is held the radius closes in on a tighter
//! distance; once released it returns to the radius it was interrupted at.

use vstd::prelude::*;
use crate::camera::ThirdPersonCamera;
use crate::fixed::Fixed;
use crate::zoom::Zoom;

verus! {

/// Where the zoom stands between rest and aim.
#[derive(Clone, Copy, Debug, PartialEq, Eq)]
pub enum AimPhase {
    /// No radius is saved: the zoom is its own.
    Relaxed,
    /// The aim input is held: the radius descends to the aimed radius, or
    /// rests at it.
    ZoomingIn,
    /// The aim input is released: the radius ascends to the saved radius.
    ZoomingOut,
}

/// The distance that the radius moves in one tick of `dt`: the saved radius
/// over the aim zoom, times the aim speed, times the time step.
pub open spec fn aim_step(saved: Fixed, aim_zoom: Fixed, aim_speed: Fixed, dt: Fixed) -> Fixed {
    saved.over(aim_zoom).times(aim_speed).times(dt)
}

impl Zoom {
    /// The radius that aiming descends to: the lower bound times the aim
    /// zoom.
    pub open spec fn aimed_radius(self, aim_zoom: Fixed) -> Fixed {
        self.min.times(aim_zoom)
    }

    /// The radius to return to: the saved one, or the current one where none
    /// is saved yet.
    pub open spec fn baseline(self) -> Fixed {
        match self.saved_radius {
            Some(saved) => saved,
            None => self.radius,
        }
    }

    /// The phase of the zoom, with the aim input held or not.
    pub open spec fn spec_phase(self, aim_held: bool) -> AimPhase {
        if self.saved_radius is None {
            AimPhase::Relaxed
        } else if aim_held {
            AimPhase::ZoomingIn
        } else {
            AimPhase::ZoomingOut
        }
    }

    /// The zoom after one tick with the aim input held.
    pub open spec fn zoomed_in(self, aim_zoom: Fixed, aim_speed: Fixed, dt: Fixed) -> Zoom {
        let saved = self.baseline();
        let desired = self.aimed_radius(aim_zoom);
        let next = self.radius.minus(aim_step(saved, aim_zoom, aim_speed, dt));
        Zoom {
            radius: if next.micros <= desired.micros {
                desired
            } else {
                next
            },
            saved_radius: Some(saved),
            ..self
        }
    }

    /// The zoom after one tick with the aim input released.
    pub open spec fn zoomed_out(self, aim_zoom: Fixed, aim_speed: Fixed, dt: Fixed) -> Zoom {
        match self.saved_radius {
            None => self,
            Some(saved) => {
                let next = self.radius.plus(aim_step(saved, aim_zoom, aim_speed, dt));
                if next.micros >= saved.micros {
                    Zoom { radius: saved, saved_radius: None, ..self }
                } else {
                    Zoom { radius: next, ..self }
                }
            },
        }
    }

    /// The zoom after one tick of the aim state machine.
    pub open spec fn aim_ticked(
        self,
        aim_held: bool,
        aim_zoom: Fixed,
        aim_speed: Fixed,
        dt: Fixed,
    ) -> Zoom {
        if aim_held {
            self.zoomed_in(aim_zoom, aim_speed, dt)
        } else {
            self.zoomed_out(aim_zoom, aim_speed, dt)
        }
    }

    /// The phase of the zoom, with the aim input held or not.
    #[verifier::when_used_as_spec(spec_phase)]
    pub fn phase(self, aim_held: bool) -> (phase: AimPhase)
        ensures
            phase == self.spec_phase(aim_held),
    {
        if self.saved_radius.is_none() {
            AimPhase::Relaxed
        } else if aim_held {
            AimPhase::ZoomingIn
        } else {
            AimPhase::ZoomingOut
        }
    }

    /// One tick with the aim input held: saves the radius if none is saved,
    /// then moves the radius one step down, stopping at the aimed radius. A
    /// radius below the aimed one is brought up to it, and a negative step
    /// moves the radius up.
    pub fn zoom_in(&mut self, aim_zoom: Fixed, aim_speed: Fixed, dt: Fixed)
        ensures
            *final(self) == old(self).zoomed_in(aim_zoom, aim_speed, dt),
            final(self).saved_radius == Some(old(self).baseline()),
            final(self).radius.micros >= old(self).aimed_radius(aim_zoom).micros,
    {
        let saved: Fixed = match self.saved_radius {
            Some(saved) => saved,
            None => self.radius,
        };
        self.saved_radius = Some(saved);
        let desired: Fixed = self.min.times(aim_zoom);
        let step: Fixed = saved.over(aim_zoom).times(aim_speed).times(dt);
        let next: Fixed = self.radius.minus(step);
        if next.micros <= desired.micros {
            self.radius = desired;
        } else {
            self.radius = next;
        }
    }

    /// One tick with the aim input released: moves the radius one step up;
    /// on reaching the saved radius, takes exactly that radius and forgets
    /// it. Nothing changes where no radius is saved. A negative step moves
    /// the radius down.
    pub fn zoom_out(&mut self, aim_zoom: Fixed, aim_speed: Fixed, dt: Fixed)
        ensures
            *final(self) == old(self).zoomed_out(aim_zoom, aim_speed, dt),
            final(self).saved_radius is None ==> final(self).radius == old(self).baseline(),
            final(self).saved_radius is Some ==> final(self).saved_radius == old(
                self,
            ).saved_radius,
            old(self).saved_radius is Some ==> final(self).radius.micros <= old(
                self,
            ).baseline().micros,
    {
        if let Some(saved) = self.saved_radius {
            let step: Fixed = saved.over(aim_zoom).times(aim_speed).times(dt);
            let next: Fixed = self.radius.plus(step);
            if next.micros >= saved.micros {
                self.radius = saved;
                self.saved_radius = None;
            } else {
                self.radius = next;
            }
        }
    }
}

/// The camera after one tick of aiming.
///
/// With the aim input held and no target to turn, nothing changes.
pub open spec fn aimed(
    cam: ThirdPersonCamera,
    aim_held: bool,
    target_present: bool,
    dt: Fixed,
) -> ThirdPersonCamera {
    if aim_held && !target_present {
        cam
    } else {
        ThirdPersonCamera {
            zoom: cam.zoom.aim_ticked(aim_held, cam.aim_zoom, cam.aim_speed, dt),
            ..cam
        }
    }
}

/// One tick of aiming, `dt` after the last.
///
/// Returns whether the target is to be turned to face the way the camera
/// looks: it is while the aim input is held and there is a target.
pub fn aim(
    cam: &mut ThirdPersonCamera,
    aim_held: bool,
    target_present: bool,
    dt: Fixed,
) -> (turn_target: bool)
    ensures
        *final(cam) == aimed(*old(cam), aim_held, target_present, dt),
        turn_target == (aim_held && target_present),
{
    if aim_held {
        if !target_present {
            return false;
        }
        cam.zoom.zoom_in(cam.aim_zoom, cam.aim_speed, dt);
        true
    } else {
        cam.zoom.zoom_out(cam.aim_zoom, cam.aim_speed, dt);
        false
    }
}

/// One tick of the aim input: whether it is held, and the time since the
/// tick before.
#[derive(Clone, Copy, Debug, PartialEq, Eq)]
pub struct AimTick {
    pub held: bool,
    pub dt: Fixed,
}

impl Zoom {
    /// The zoom after the ticks `ticks`, in order.
    pub open spec fn aim_run(
        self,
        ticks: Seq<AimTick>,
        aim_zoom: Fixed,
        aim_speed: Fixed,
    ) -> Zoom
        decreases ticks.len(),
    {
        if ticks.len() == 0 {
            self
        } else {
            self.aim_run(ticks.drop_last(), aim_zoom, aim_speed).aim_ticked(
                ticks.last().held,
                aim_zoom,
                aim_speed,
                ticks.last().dt,
            )
        }
    }

    /// The zoom after `count` ticks of `dt` each with the aim input
    /// released.
    pub open spec fn released_for(
        self,
        count: nat,
        aim_zoom: Fixed,
        aim_speed: Fixed,
        dt: Fixed,
    ) -> Zoom
        decreases count,
    {
        if count == 0 {
            self
        } else {
            self.zoomed_out(aim_zoom, aim_speed, dt).released_for(
                (count - 1) as nat,
                aim_zoom,
                aim_speed,
                dt,
            )
        }
    }

    /// The transitions of the aim state machine: a tick with the aim input
    /// held ends zooming in; a tick with it released leaves a zoom at rest
    /// as it is, and otherwise ends zooming out or, with the radius back at
    /// the saved one, at rest.
    pub proof fn lemma_phase_transitions(
        self,
        held: bool,
        aim_zoom: Fixed,
        aim_speed: Fixed,
        dt: Fixed,
    )
        ensures
            held ==> self.aim_ticked(held, aim_zoom, aim_speed, dt).phase(held)
                == AimPhase::ZoomingIn,
            !held && self.phase(held) == AimPhase::Relaxed ==> self.aim_ticked(
                held,
                aim_zoom,
                aim_speed,
                dt,
            ) == self,
            !held && self.phase(held) == AimPhase::ZoomingOut ==> {
                let next = self.aim_ticked(held, aim_zoom, aim_speed, dt);
                ||| next.phase(held) == AimPhase::ZoomingOut
                ||| next.phase(held) == AimPhase::Relaxed && Some(next.radius) == self.saved_radius
            },
    {
    }

    /// Aiming never overshoots: a held tick ends at or above the aimed
    /// radius, and a released tick with a radius saved ends at or below the
    /// saved one, whatever the step.
    pub proof fn lemma_aim_never_overshoots(self, aim_zoom: Fixed, aim_speed: Fixed, dt: Fixed)
        ensures
            self.zoomed_in(aim_zoom, aim_speed, dt).radius.micros >= self.aimed_radius(
                aim_zoom,
            ).micros,
            self.saved_radius is Some ==> self.zoomed_out(aim_zoom, aim_speed, dt).radius.micros
                <= self.baseline().micros,
    {
    }

    /// With a step that is not negative, a held tick never raises a radius
    /// that is at or above the aimed one, and a released tick that finds the
    /// radius at or above the saved one ends at rest on the saved one.
    pub proof fn lemma_step_forward(self, aim_zoom: Fixed, aim_speed: Fixed, dt: Fixed)
        requires
            aim_step(self.baseline(), aim_zoom, aim_speed, dt).micros >= 0,
        ensures
            self.radius.micros >= self.aimed_radius(aim_zoom).micros ==> self.zoomed_in(
                aim_zoom,
                aim_speed,
                dt,
            ).radius.micros <= self.radius.micros,
            self.saved_radius is Some && self.radius.micros >= self.baseline().micros
                ==> self.zoomed_out(aim_zoom, aim_speed, dt) == (Zoom {
                radius: self.baseline(),
                saved_radius: None,
                ..self
            }),
    {
    }

    /// The first tick of aiming saves the radius it finds.
    pub proof fn lemma_press_saves_radius(self, aim_zoom: Fixed, aim_speed: Fixed, dt: Fixed)
        requires
            self.saved_radius is None,
        ensures
            self.zoomed_in(aim_zoom, aim_speed, dt).saved_radius == Some(self.radius),
    {
    }

    /// No tick of aiming, held or released, changes the radius to return to;
    /// and a tick that ends at rest ends at exactly that radius.
    pub proof fn lemma_tick_keeps_baseline(
        self,
        held: bool,
        aim_zoom: Fixed,
        aim_speed: Fixed,
        dt: Fixed,
    )
        ensures
            self.aim_ticked(held, aim_zoom, aim_speed, dt).baseline() == self.baseline(),
            self.aim_ticked(held, aim_zoom, aim_speed, dt).min == self.min,
            self.aim_ticked(held, aim_zoom, aim_speed, dt).max == self.max,
            self.aim_ticked(held, aim_zoom, aim_speed, dt).true_radius == self.true_radius,
    {
    }

    /// Aiming round trip: from rest, through any ticks of holding and
    /// releasing the aim input, for any time steps, the radius to return to
    /// stays the radius at the start; so whenever the zoom is at rest again,
    /// its radius is exactly the radius at the start and none is saved.
    pub proof fn lemma_aim_round_trip(self, ticks: Seq<AimTick>, aim_zoom: Fixed, aim_speed: Fixed)
        requires
            self.saved_radius is None,
        ensures
            self.aim_run(ticks, aim_zoom, aim_speed).baseline() == self.radius,
            self.aim_run(ticks, aim_zoom, aim_speed).saved_radius is None ==> self.aim_run(
                ticks,
                aim_zoom,
                aim_speed,
            ).radius == self.radius,
            self.aim_run(ticks, aim_zoom, aim_speed).saved_radius is Some ==> self.aim_run(
                ticks,
                aim_zoom,
                aim_speed,
            ).saved_radius == Some(self.radius),
            self.aim_run(ticks, aim_zoom, aim_speed).min == self.min,
            self.aim_run(ticks, aim_zoom, aim_speed).max == self.max,
            self.aim_run(ticks, aim_zoom, aim_speed).true_radius == self.true_radius,
        decreases ticks.len(),
    {
        if ticks.len() > 0 {
            self.lemma_aim_round_trip(ticks.drop_last(), aim_zoom, aim_speed);
            self.aim_run(ticks.drop_last(), aim_zoom, aim_speed).lemma_tick_keeps_baseline(
                ticks.last().held,
                aim_zoom,
                aim_speed,
                ticks.last().dt,
            );
        }
    }

    /// Release reaches rest: with a radius saved and a positive step, once
    /// the aim input has been released for enough ticks to cover the
    /// distance to the saved radius, the radius is exactly the saved one and
    /// none is saved any more.
    pub proof fn lemma_release_restores(
        self,
        count: nat,
        aim_zoom: Fixed,
        aim_speed: Fixed,
        dt: Fixed,
    )
        requires
            self.saved_radius is Some,
            aim_step(self.saved_radius->0, aim_zoom, aim_speed, dt).micros > 0,
            count >= 1,
            count * aim_step(self.saved_radius->0, aim_zoom, aim_speed, dt).micros
                >= self.saved_radius->0.micros - self.radius.micros,
        ensures
            self.released_for(count, aim_zoom, aim_speed, dt) == (Zoom {
                radius: self.saved_radius->0,
                saved_radius: None,
                ..self
            }),
        decreases count,
    {
        let saved = self.saved_radius->0;
        let step = aim_step(saved, aim_zoom, aim_speed, dt);
        let next = self.zoomed_out(aim_zoom, aim_speed, dt);
        if next.saved_radius is None {
            next.lemma_rest_stays((count - 1) as nat, aim_zoom, aim_speed, dt);
        } else {
            assert(next.radius.micros == self.radius.micros + step.micros);
            assert(count >= 2) by (nonlinear_arith)
                requires
                    count >= 1,
                    count * step.micros >= saved.micros - self.radius.micros,
                    self.radius.micros + step.micros < saved.micros,
            ;
            assert((count - 1) * step.micros >= saved.micros - next.radius.micros)
                by (nonlinear_arith)
                requires
                    count * step.micros >= saved.micros - self.radius.micros,
                    next.radius.micros == self.radius.micros + step.micros,
            ;
            next.lemma_release_restores((count - 1) as nat, aim_zoom, aim_speed, dt);
        }
    }

    /// Aiming round trip, start to finish: from rest, hold the aim input for
    /// any ticks, then release it for ticks of `dt` with a positive step
    /// until they cover the distance back; the zoom is then exactly the zoom
    /// at the start, with its radius back and none saved.
    pub proof fn lemma_hold_then_release(
        self,
        holds: Seq<AimTick>,
        count: nat,
        aim_zoom: Fixed,
        aim_speed: Fixed,
        dt: Fixed,
    )
        requires
            self.saved_radius is None,
            holds.len() > 0,
            holds.last().held,
            aim_step(self.radius, aim_zoom, aim_speed, dt).micros > 0,
            count >= 1,
            count * aim_step(self.radius, aim_zoom, aim_speed, dt).micros >= self.radius.micros
                - self.aim_run(holds, aim_zoom, aim_speed).radius.micros,
        ensures
            self.aim_run(holds, aim_zoom, aim_speed).saved_radius == Some(self.radius),
            self.aim_run(holds, aim_zoom, aim_speed).released_for(count, aim_zoom, aim_speed, dt)
                == self,
    {
        let aimed = self.aim_run(holds, aim_zoom, aim_speed);
        self.lemma_aim_round_trip(holds, aim_zoom, aim_speed);
        assert(aimed.saved_radius is Some);
        aimed.lemma_release_restores(count, aim_zoom, aim_speed, dt);
    }

    /// A zoom at rest stays as it is while the aim input stays released.
    pub proof fn lemma_rest_stays(self, count: nat, aim_zoom: Fixed, aim_speed: Fixed, dt: Fixed)
        requires
            self.saved_radius is None,
        ensures
            self.released_for(count, aim_zoom, aim_speed, dt) == self,
        decreases count,
    {
        if count > 0 {
            self.lemma_rest_stays((count - 1) as nat, aim_zoom, aim_speed, dt);
        }
    }
}

} // verus!
