use vstd::prelude::*;
use crate::error::Error;
use crate::render::surface::Renderer;

verus! {

/// A host that runs one widget: it receives the widget's name, the widget and the renderer,
/// builds the runtime around them and drives its event loop until the window closes.
pub trait HostRunner<W, R: Renderer> {
    fn run(self, widget_name: String, widget: W, renderer: R) -> Result<(), Error>;
}

/// Application bootstrap for a single widget instance bound to one host and one renderer.
pub struct WidgetApp<W, H, R> {
    widget_name: Option<String>,
    widget: Option<W>,
    host: Option<H>,
    renderer: Option<R>,
}

impl<W, H, R> WidgetApp<W, H, R> {
    /// The widget's name, as characters.
    pub open spec fn spec_widget_name(&self) -> Option<Seq<char>> {
        match self.spec_name_string() {
            Some(name) => Some(name@),
            None => None,
        }
    }

    /// The widget's name as the string the host receives.
    pub closed spec fn spec_name_string(&self) -> Option<String> {
        self.widget_name
    }

    pub closed spec fn spec_widget(&self) -> Option<W> {
        self.widget
    }

    pub closed spec fn spec_host(&self) -> Option<H> {
        self.host
    }

    pub closed spec fn spec_renderer(&self) -> Option<R> {
        self.renderer
    }

    /// The widget (with its name), the host and the renderer have all been given.
    pub open spec fn is_configured(&self) -> bool {
        &&& self.spec_widget_name() is Some
        &&& self.spec_widget() is Some
        &&& self.spec_host() is Some
        &&& self.spec_renderer() is Some
    }
}

impl WidgetApp<(), (), ()> {
    /// An application with nothing configured yet.
    pub fn new() -> (app: Self)
        ensures
            app.spec_widget_name() is None,
            app.spec_widget() is None,
            app.spec_host() is None,
            app.spec_renderer() is None,
    {
        WidgetApp { widget_name: None, widget: None, host: None, renderer: None }
    }
}

impl Default for WidgetApp<(), (), ()> {
    fn default() -> (app: Self)
        ensures
            app.spec_widget_name() is None,
            app.spec_widget() is None,
            app.spec_host() is None,
            app.spec_renderer() is None,
    {
        Self::new()
    }
}

impl<H, R> WidgetApp<(), H, R> {
    /// Sets the widget and its name.
    pub fn widget<W>(self, name: &str, widget: W) -> (app: WidgetApp<W, H, R>)
        ensures
            app.spec_widget_name() == Some(name@),
            app.spec_widget() == Some(widget),
            app.spec_host() == self.spec_host(),
            app.spec_renderer() == self.spec_renderer(),
    {
        WidgetApp {
            widget_name: Some(String::from_str(name)),
            widget: Some(widget),
            host: self.host,
            renderer: self.renderer,
        }
    }
}

impl<W, R> WidgetApp<W, (), R> {
    /// Sets the host.
    pub fn host<H>(self, host: H) -> (app: WidgetApp<W, H, R>)
        ensures
            app.spec_name_string() == self.spec_name_string(),
            app.spec_widget() == self.spec_widget(),
            app.spec_host() == Some(host),
            app.spec_renderer() == self.spec_renderer(),
    {
        WidgetApp {
            widget_name: self.widget_name,
            widget: self.widget,
            host: Some(host),
            renderer: self.renderer,
        }
    }
}

impl<W, H> WidgetApp<W, H, ()> {
    /// Sets the renderer.
    pub fn renderer<R>(self, renderer: R) -> (app: WidgetApp<W, H, R>)
        ensures
            app.spec_name_string() == self.spec_name_string(),
            app.spec_widget() == self.spec_widget(),
            app.spec_host() == self.spec_host(),
            app.spec_renderer() == Some(renderer),
    {
        WidgetApp {
            widget_name: self.widget_name,
            widget: self.widget,
            host: self.host,
            renderer: Some(renderer),
        }
    }
}

impl<W, H: HostRunner<W, R>, R: Renderer> WidgetApp<W, H, R> {
    /// Hands the widget, its name and the renderer to the host and runs it; the host's result
    /// is returned.
    pub fn run(self) -> (r: Result<(), Error>)
        requires
            self.is_configured(),
        ensures
            H::run.ensures(
                (
                    self.spec_host()->0,
                    self.spec_name_string()->0,
                    self.spec_widget()->0,
                    self.spec_renderer()->0,
                ),
                r,
            ),
    {
        let host = self.host.unwrap();
        host.run(self.widget_name.unwrap(), self.widget.unwrap(), self.renderer.unwrap())
    }
}

} // verus!
