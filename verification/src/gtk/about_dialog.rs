//! What an about dialog says of its program.

use crate::ffi::{Arg, ArgView, Call, CallView, Symbol};
use crate::glib::traits::{AsPtr, Cast, ConstPtr, IsA};
use crate::glib::translate::{has_nul, CStrBuf};
use crate::glib::{spec_to_gboolean, to_gboolean};
use crate::gtk::dialog::About;
use crate::gtk::ffi::C_GtkAboutDialog;
use vstd::prelude::*;
use vstd::string::StringSliceAdditionalSpecFns;

verus! {

impl About {
    /// The call that asks for the name of the program; it returns a string that
    /// the dialog keeps, or the null pointer.
    pub fn get_program_name<D: AsPtr>(dialog: &D) -> (call: Call)
        where
            D::Inner: IsA<C_GtkAboutDialog>,
        ensures
            call@ == (CallView {
                symbol: Symbol::GtkAboutDialogGetProgramName,
                args: seq![ArgView::Pointer(dialog.addr())],
            }),
    {
        let about: ConstPtr<C_GtkAboutDialog> = dialog.as_ptr().cast();
        Call::unary(Symbol::GtkAboutDialogGetProgramName, Arg::Pointer(about.addr))
    }

    /// The call that sets the name of the program.
    pub fn set_program_name<D: AsPtr>(dialog: &D, program_name: &str) -> (call: Call)
        where
            D::Inner: IsA<C_GtkAboutDialog>,
        requires
            !has_nul(program_name.spec_bytes()),
        ensures
            call@ == (CallView {
                symbol: Symbol::GtkAboutDialogSetProgramName,
                args: seq![
                    ArgView::Pointer(dialog.addr()),
                    ArgView::Str(program_name.spec_bytes()),
                ],
            }),
    {
        let about: ConstPtr<C_GtkAboutDialog> = dialog.as_ptr().cast();
        Call::binary(
            Symbol::GtkAboutDialogSetProgramName,
            Arg::Pointer(about.addr),
            Arg::Str(CStrBuf::from_str(program_name)),
        )
    }

    /// The call that asks for the version; it returns a string that the dialog
    /// keeps, or the null pointer.
    pub fn get_version<D: AsPtr>(dialog: &D) -> (call: Call)
        where
            D::Inner: IsA<C_GtkAboutDialog>,
        ensures
            call@ == (CallView {
                symbol: Symbol::GtkAboutDialogGetVersion,
                args: seq![ArgView::Pointer(dialog.addr())],
            }),
    {
        let about: ConstPtr<C_GtkAboutDialog> = dialog.as_ptr().cast();
        Call::unary(Symbol::GtkAboutDialogGetVersion, Arg::Pointer(about.addr))
    }

    /// The call that sets the version.
    pub fn set_version<D: AsPtr>(dialog: &D, version: &str) -> (call: Call)
        where
            D::Inner: IsA<C_GtkAboutDialog>,
        requires
            !has_nul(version.spec_bytes()),
        ensures
            call@ == (CallView {
                symbol: Symbol::GtkAboutDialogSetVersion,
                args: seq![ArgView::Pointer(dialog.addr()), ArgView::Str(version.spec_bytes())],
            }),
    {
        let about: ConstPtr<C_GtkAboutDialog> = dialog.as_ptr().cast();
        Call::binary(
            Symbol::GtkAboutDialogSetVersion,
            Arg::Pointer(about.addr),
            Arg::Str(CStrBuf::from_str(version)),
        )
    }

    /// The call that asks for the copyright notice; it returns a string that
    /// the dialog keeps, or the null pointer.
    pub fn get_copyright<D: AsPtr>(dialog: &D) -> (call: Call)
        where
            D::Inner: IsA<C_GtkAboutDialog>,
        ensures
            call@ == (CallView {
                symbol: Symbol::GtkAboutDialogGetCopyright,
                args: seq![ArgView::Pointer(dialog.addr())],
            }),
    {
        let about: ConstPtr<C_GtkAboutDialog> = dialog.as_ptr().cast();
        Call::unary(Symbol::GtkAboutDialogGetCopyright, Arg::Pointer(about.addr))
    }

    /// The call that sets the copyright notice.
    pub fn set_copyright<D: AsPtr>(dialog: &D, copyright: &str) -> (call: Call)
        where
            D::Inner: IsA<C_GtkAboutDialog>,
        requires
            !has_nul(copyright.spec_bytes()),
        ensures
            call@ == (CallView {
                symbol: Symbol::GtkAboutDialogSetCopyright,
                args: seq![ArgView::Pointer(dialog.addr()), ArgView::Str(copyright.spec_bytes())],
            }),
    {
        let about: ConstPtr<C_GtkAboutDialog> = dialog.as_ptr().cast();
        Call::binary(
            Symbol::GtkAboutDialogSetCopyright,
            Arg::Pointer(about.addr),
            Arg::Str(CStrBuf::from_str(copyright)),
        )
    }

    /// The call that asks for the comments on the program; it returns a string
    /// that the dialog keeps, or the null pointer.
    pub fn get_comments<D: AsPtr>(dialog: &D) -> (call: Call)
        where
            D::Inner: IsA<C_GtkAboutDialog>,
        ensures
            call@ == (CallView {
                symbol: Symbol::GtkAboutDialogGetComments,
                args: seq![ArgView::Pointer(dialog.addr())],
            }),
    {
        let about: ConstPtr<C_GtkAboutDialog> = dialog.as_ptr().cast();
        Call::unary(Symbol::GtkAboutDialogGetComments, Arg::Pointer(about.addr))
    }

    /// The call that sets the comments on the program.
    pub fn set_comments<D: AsPtr>(dialog: &D, comments: &str) -> (call: Call)
        where
            D::Inner: IsA<C_GtkAboutDialog>,
        requires
            !has_nul(comments.spec_bytes()),
        ensures
            call@ == (CallView {
                symbol: Symbol::GtkAboutDialogSetComments,
                args: seq![ArgView::Pointer(dialog.addr()), ArgView::Str(comments.spec_bytes())],
            }),
    {
        let about: ConstPtr<C_GtkAboutDialog> = dialog.as_ptr().cast();
        Call::binary(
            Symbol::GtkAboutDialogSetComments,
            Arg::Pointer(about.addr),
            Arg::Str(CStrBuf::from_str(comments)),
        )
    }

    /// The call that asks for the text of the license; it returns a string that
    /// the dialog keeps, or the null pointer.
    pub fn get_license<D: AsPtr>(dialog: &D) -> (call: Call)
        where
            D::Inner: IsA<C_GtkAboutDialog>,
        ensures
            call@ == (CallView {
                symbol: Symbol::GtkAboutDialogGetLicense,
                args: seq![ArgView::Pointer(dialog.addr())],
            }),
    {
        let about: ConstPtr<C_GtkAboutDialog> = dialog.as_ptr().cast();
        Call::unary(Symbol::GtkAboutDialogGetLicense, Arg::Pointer(about.addr))
    }

    /// The call that sets the text of the license.
    pub fn set_license<D: AsPtr>(dialog: &D, license: &str) -> (call: Call)
        where
            D::Inner: IsA<C_GtkAboutDialog>,
        requires
            !has_nul(license.spec_bytes()),
        ensures
            call@ == (CallView {
                symbol: Symbol::GtkAboutDialogSetLicense,
                args: seq![ArgView::Pointer(dialog.addr()), ArgView::Str(license.spec_bytes())],
            }),
    {
        let about: ConstPtr<C_GtkAboutDialog> = dialog.as_ptr().cast();
        Call::binary(
            Symbol::GtkAboutDialogSetLicense,
            Arg::Pointer(about.addr),
            Arg::Str(CStrBuf::from_str(license)),
        )
    }

    /// The call that asks for the address of the website; it returns a string
    /// that the dialog keeps, or the null pointer.
    pub fn get_website<D: AsPtr>(dialog: &D) -> (call: Call)
        where
            D::Inner: IsA<C_GtkAboutDialog>,
        ensures
            call@ == (CallView {
                symbol: Symbol::GtkAboutDialogGetWebsite,
                args: seq![ArgView::Pointer(dialog.addr())],
            }),
    {
        let about: ConstPtr<C_GtkAboutDialog> = dialog.as_ptr().cast();
        Call::unary(Symbol::GtkAboutDialogGetWebsite, Arg::Pointer(about.addr))
    }

    /// The call that sets the address of the website.
    pub fn set_website<D: AsPtr>(dialog: &D, website: &str) -> (call: Call)
        where
            D::Inner: IsA<C_GtkAboutDialog>,
        requires
            !has_nul(website.spec_bytes()),
        ensures
            call@ == (CallView {
                symbol: Symbol::GtkAboutDialogSetWebsite,
                args: seq![ArgView::Pointer(dialog.addr()), ArgView::Str(website.spec_bytes())],
            }),
    {
        let about: ConstPtr<C_GtkAboutDialog> = dialog.as_ptr().cast();
        Call::binary(
            Symbol::GtkAboutDialogSetWebsite,
            Arg::Pointer(about.addr),
            Arg::Str(CStrBuf::from_str(website)),
        )
    }

    /// The call that asks for the label of the link to the website; it returns
    /// a string that the dialog keeps, or the null pointer.
    pub fn get_website_label<D: AsPtr>(dialog: &D) -> (call: Call)
        where
            D::Inner: IsA<C_GtkAboutDialog>,
        ensures
            call@ == (CallView {
                symbol: Symbol::GtkAboutDialogGetWebsiteLabel,
                args: seq![ArgView::Pointer(dialog.addr())],
            }),
    {
        let about: ConstPtr<C_GtkAboutDialog> = dialog.as_ptr().cast();
        Call::unary(Symbol::GtkAboutDialogGetWebsiteLabel, Arg::Pointer(about.addr))
    }

    /// The call that sets the label of the link to the website.
    pub fn set_website_label<D: AsPtr>(dialog: &D, website_label: &str) -> (call: Call)
        where
            D::Inner: IsA<C_GtkAboutDialog>,
        requires
            !has_nul(website_label.spec_bytes()),
        ensures
            call@ == (CallView {
                symbol: Symbol::GtkAboutDialogSetWebsiteLabel,
                args: seq![
                    ArgView::Pointer(dialog.addr()),
                    ArgView::Str(website_label.spec_bytes()),
                ],
            }),
    {
        let about: ConstPtr<C_GtkAboutDialog> = dialog.as_ptr().cast();
        Call::binary(
            Symbol::GtkAboutDialogSetWebsiteLabel,
            Arg::Pointer(about.addr),
            Arg::Str(CStrBuf::from_str(website_label)),
        )
    }

    /// The call that asks for the credits to the translators; it returns a
    /// string that the dialog keeps, or the null pointer.
    pub fn get_translator_credits<D: AsPtr>(dialog: &D) -> (call: Call)
        where
            D::Inner: IsA<C_GtkAboutDialog>,
        ensures
            call@ == (CallView {
                symbol: Symbol::GtkAboutDialogGetTranslatorCredits,
                args: seq![ArgView::Pointer(dialog.addr())],
            }),
    {
        let about: ConstPtr<C_GtkAboutDialog> = dialog.as_ptr().cast();
        Call::unary(Symbol::GtkAboutDialogGetTranslatorCredits, Arg::Pointer(about.addr))
    }

    /// The call that sets the credits to the translators.
    pub fn set_translator_credits<D: AsPtr>(dialog: &D, translator_credits: &str) -> (call: Call)
        where
            D::Inner: IsA<C_GtkAboutDialog>,
        requires
            !has_nul(translator_credits.spec_bytes()),
        ensures
            call@ == (CallView {
                symbol: Symbol::GtkAboutDialogSetTranslatorCredits,
                args: seq![
                    ArgView::Pointer(dialog.addr()),
                    ArgView::Str(translator_credits.spec_bytes()),
                ],
            }),
    {
        let about: ConstPtr<C_GtkAboutDialog> = dialog.as_ptr().cast();
        Call::binary(
            Symbol::GtkAboutDialogSetTranslatorCredits,
            Arg::Pointer(about.addr),
            Arg::Str(CStrBuf::from_str(translator_credits)),
        )
    }

    /// The call that asks for the name of the icon that serves as logo; it
    /// returns a string that the dialog keeps, or the null pointer.
    pub fn get_logo_icon_name<D: AsPtr>(dialog: &D) -> (call: Call)
        where
            D::Inner: IsA<C_GtkAboutDialog>,
        ensures
            call@ == (CallView {
                symbol: Symbol::GtkAboutDialogGetLogoIconName,
                args: seq![ArgView::Pointer(dialog.addr())],
            }),
    {
        let about: ConstPtr<C_GtkAboutDialog> = dialog.as_ptr().cast();
        Call::unary(Symbol::GtkAboutDialogGetLogoIconName, Arg::Pointer(about.addr))
    }

    /// The call that sets the name of the icon that serves as logo.
    pub fn set_logo_icon_name<D: AsPtr>(dialog: &D, logo_icon_name: &str) -> (call: Call)
        where
            D::Inner: IsA<C_GtkAboutDialog>,
        requires
            !has_nul(logo_icon_name.spec_bytes()),
        ensures
            call@ == (CallView {
                symbol: Symbol::GtkAboutDialogSetLogoIconName,
                args: seq![
                    ArgView::Pointer(dialog.addr()),
                    ArgView::Str(logo_icon_name.spec_bytes()),
                ],
            }),
    {
        let about: ConstPtr<C_GtkAboutDialog> = dialog.as_ptr().cast();
        Call::binary(
            Symbol::GtkAboutDialogSetLogoIconName,
            Arg::Pointer(about.addr),
            Arg::Str(CStrBuf::from_str(logo_icon_name)),
        )
    }

    /// The call that asks whether the text of the license is wrapped; it
    /// returns a truth value.
    pub fn get_wrap_license<D: AsPtr>(dialog: &D) -> (call: Call)
        where
            D::Inner: IsA<C_GtkAboutDialog>,
        ensures
            call@ == (CallView {
                symbol: Symbol::GtkAboutDialogGetWrapLicense,
                args: seq![ArgView::Pointer(dialog.addr())],
            }),
    {
        let about: ConstPtr<C_GtkAboutDialog> = dialog.as_ptr().cast();
        Call::unary(Symbol::GtkAboutDialogGetWrapLicense, Arg::Pointer(about.addr))
    }

    /// The call that sets whether the text of the license is wrapped.
    pub fn set_wrap_license<D: AsPtr>(dialog: &D, wrap_license: bool) -> (call: Call)
        where
            D::Inner: IsA<C_GtkAboutDialog>,
        ensures
            call@ == (CallView {
                symbol: Symbol::GtkAboutDialogSetWrapLicense,
                args: seq![
                    ArgView::Pointer(dialog.addr()),
                    ArgView::Int(spec_to_gboolean(wrap_license)),
                ],
            }),
    {
        let about: ConstPtr<C_GtkAboutDialog> = dialog.as_ptr().cast();
        Call::binary(
            Symbol::GtkAboutDialogSetWrapLicense,
            Arg::Pointer(about.addr),
            Arg::Int(to_gboolean(wrap_license)),
        )
    }

    /// The call that asks for the authors; it returns an array of strings that
    /// the dialog keeps, closed by a null pointer.
    pub fn get_authors<D: AsPtr>(dialog: &D) -> (call: Call)
        where
            D::Inner: IsA<C_GtkAboutDialog>,
        ensures
            call@ == (CallView {
                symbol: Symbol::GtkAboutDialogGetAuthors,
                args: seq![ArgView::Pointer(dialog.addr())],
            }),
    {
        let about: ConstPtr<C_GtkAboutDialog> = dialog.as_ptr().cast();
        Call::unary(Symbol::GtkAboutDialogGetAuthors, Arg::Pointer(about.addr))
    }

    /// The call that asks for the artists; it returns an array of strings that
    /// the dialog keeps, closed by a null pointer.
    pub fn get_artists<D: AsPtr>(dialog: &D) -> (call: Call)
        where
            D::Inner: IsA<C_GtkAboutDialog>,
        ensures
            call@ == (CallView {
                symbol: Symbol::GtkAboutDialogGetArtists,
                args: seq![ArgView::Pointer(dialog.addr())],
            }),
    {
        let about: ConstPtr<C_GtkAboutDialog> = dialog.as_ptr().cast();
        Call::unary(Symbol::GtkAboutDialogGetArtists, Arg::Pointer(about.addr))
    }

    /// The call that asks for the documenters; it returns an array of strings
    /// that the dialog keeps, closed by a null pointer.
    pub fn get_documenters<D: AsPtr>(dialog: &D) -> (call: Call)
        where
            D::Inner: IsA<C_GtkAboutDialog>,
        ensures
            call@ == (CallView {
                symbol: Symbol::GtkAboutDialogGetDocumenters,
                args: seq![ArgView::Pointer(dialog.addr())],
            }),
    {
        let about: ConstPtr<C_GtkAboutDialog> = dialog.as_ptr().cast();
        Call::unary(Symbol::GtkAboutDialogGetDocumenters, Arg::Pointer(about.addr))
    }
}

} // verus!
