//! Control logic of a small 3D model viewer driven by a game controller.
//!
//! Once per frame the host program samples the controller and hands the sample
//! to [`viewer::Viewer::handle_input`], which updates the viewer's state and
//! answers with the commands the host has to carry out on the graphics
//! pipeline. After drawing, the host calls [`viewer::Viewer::end_frame`], which
//! counts the frame and says whether a profiler report is due.
//!
//! Everything here works on plain integers and booleans; talking to the
//! controller and to the graphics hardware is left to the host.

pub mod pad;
pub mod viewer;
