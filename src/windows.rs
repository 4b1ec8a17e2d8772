use vstd::prelude::*;

verus! {

/// Link to show a specific part of the demo app.
#[derive(Clone, Copy, Debug, PartialEq, Eq, Structural)]
pub enum DemoLink {
    Clock,
}

/// Names one visibility flag of [`OpenWindows`].
#[derive(Clone, Copy, Debug, PartialEq, Eq, Structural)]
pub enum WindowKey {
    Demo,
    FractalClock,
    Settings,
    Inspection,
    Memory,
    Resize,
    ColorTest,
}

/// The flag that a link opens.
pub open spec fn link_key(link: DemoLink) -> WindowKey {
    match link {
        DemoLink::Clock => WindowKey::FractalClock,
    }
}

/// One visibility flag per known window.
#[derive(Clone, Copy, Debug, PartialEq, Eq, Structural)]
pub struct OpenWindows {
    pub demo: bool,
    pub fractal_clock: bool,
    pub settings: bool,
    pub inspection: bool,
    pub memory: bool,
    pub resize: bool,
    pub color_test: bool,
}

/// The set with every flag off.
pub open spec fn none_spec() -> OpenWindows {
    OpenWindows {
        demo: false,
        fractal_clock: false,
        settings: false,
        inspection: false,
        memory: false,
        resize: false,
        color_test: false,
    }
}

/// The set with only `k` on.
pub open spec fn only(k: WindowKey) -> OpenWindows {
    none_spec().with(k, true)
}

impl OpenWindows {
    /// The value of the flag named by `k`.
    pub open spec fn flag(self, k: WindowKey) -> bool {
        match k {
            WindowKey::Demo => self.demo,
            WindowKey::FractalClock => self.fractal_clock,
            WindowKey::Settings => self.settings,
            WindowKey::Inspection => self.inspection,
            WindowKey::Memory => self.memory,
            WindowKey::Resize => self.resize,
            WindowKey::ColorTest => self.color_test,
        }
    }

    /// This set with the flag named by `k` replaced by `v`.
    pub open spec fn with(self, k: WindowKey, v: bool) -> OpenWindows {
        match k {
            WindowKey::Demo => OpenWindows { demo: v, ..self },
            WindowKey::FractalClock => OpenWindows { fractal_clock: v, ..self },
            WindowKey::Settings => OpenWindows { settings: v, ..self },
            WindowKey::Inspection => OpenWindows { inspection: v, ..self },
            WindowKey::Memory => OpenWindows { memory: v, ..self },
            WindowKey::Resize => OpenWindows { resize: v, ..self },
            WindowKey::ColorTest => OpenWindows { color_test: v, ..self },
        }
    }

    /// Every window closed.
    pub fn none() -> (r: OpenWindows)
        ensures
            r == none_spec(),
            forall|k: WindowKey| !#[trigger] r.flag(k),
    {
        OpenWindows {
            demo: false,
            fractal_clock: false,
            settings: false,
            inspection: false,
            memory: false,
            resize: false,
            color_test: false,
        }
    }

    /// Only the flag named by `k` is on.
    pub fn only(k: WindowKey) -> (r: OpenWindows)
        ensures
            r == only(k),
            forall|j: WindowKey| #[trigger] r.flag(j) == (j == k),
    {
        let mut r = OpenWindows::none();
        r.set(k, true);
        r
    }

    /// The value of the flag named by `k`.
    pub fn get(&self, k: WindowKey) -> (r: bool)
        ensures
            r == self.flag(k),
    {
        match k {
            WindowKey::Demo => self.demo,
            WindowKey::FractalClock => self.fractal_clock,
            WindowKey::Settings => self.settings,
            WindowKey::Inspection => self.inspection,
            WindowKey::Memory => self.memory,
            WindowKey::Resize => self.resize,
            WindowKey::ColorTest => self.color_test,
        }
    }

    /// Sets the flag named by `k` to `v`; every other flag keeps its value.
    pub fn set(&mut self, k: WindowKey, v: bool)
        ensures
            *final(self) == old(self).with(k, v),
            final(self).flag(k) == v,
            forall|j: WindowKey| j != k ==> #[trigger] final(self).flag(j) == old(self).flag(j),
    {
        match k {
            WindowKey::Demo => self.demo = v,
            WindowKey::FractalClock => self.fractal_clock = v,
            WindowKey::Settings => self.settings = v,
            WindowKey::Inspection => self.inspection = v,
            WindowKey::Memory => self.memory = v,
            WindowKey::Resize => self.resize = v,
            WindowKey::ColorTest => self.color_test = v,
        }
    }

    /// Flips the flag named by `k`, as its menu checkbox does.
    pub fn toggle(&mut self, k: WindowKey)
        ensures
            *final(self) == old(self).with(k, !old(self).flag(k)),
    {
        let v = self.get(k);
        self.set(k, !v);
    }
}

impl Default for OpenWindows {
    /// Only the main demo window is open.
    fn default() -> (r: OpenWindows)
        ensures
            r == only(WindowKey::Demo),
    {
        OpenWindows::only(WindowKey::Demo)
    }
}

} // verus!
